use std::path::PathBuf;

use shore_mcp::cli::Cli;
use shore_mcp::profile::{
    build_env_overrides, persistent_test_base, profile_kind, resolve_profile, EphemeralDir,
    ProfileError, ProfileKind, MCP_INSTANCE_ID,
};

fn blank_cli() -> Cli {
    Cli {
        attach_main: false,
        ephemeral: false,
        allow_main_writes: false,
        daemon_addr: None,
    }
}

fn fresh_dir() -> EphemeralDir {
    let dir = tempfile::tempdir().unwrap();
    let path = dir.path().to_string_lossy().into_owned();
    EphemeralDir { path, dir }
}

fn default_base() -> String {
    persistent_test_base(None, Some("/home/tester".to_string()))
}

#[test]
fn attach_main_uses_main_profile_with_no_overrides() {
    let profile = resolve_profile(
        Cli {
            attach_main: true,
            ephemeral: false,
            allow_main_writes: false,
            daemon_addr: None,
        },
        default_base(),
        None,
    )
    .unwrap();

    assert_eq!(profile.kind, ProfileKind::Main);
    assert!(!profile.is_test());
    assert!(profile.env_overrides.is_empty());
}

#[test]
fn default_mode_uses_persistent_test_paths() {
    let profile = resolve_profile(
        Cli {
            attach_main: false,
            ephemeral: false,
            allow_main_writes: false,
            daemon_addr: None,
        },
        default_base(),
        None,
    )
    .unwrap();

    assert_eq!(profile.kind, ProfileKind::PersistentTest);
    assert!(profile.is_test());
    let keys: Vec<_> = profile
        .env_overrides
        .iter()
        .map(|(k, _)| k.clone())
        .collect();
    assert!(keys.contains(&"SHORE_CONFIG_DIR".to_string()));
    assert!(keys.contains(&"SHORE_DATA_DIR".to_string()));
    assert!(keys.contains(&"SHORE_RUNTIME_DIR".to_string()));

    for (_, path) in &profile.env_overrides {
        assert!(
            PathBuf::from(path)
                .components()
                .any(|c| c.as_os_str() == "shore-mcp-test"),
            "expected shore-mcp-test in path: {path}"
        );
    }
}

#[test]
fn ephemeral_mode_uses_tempdir() {
    let profile = resolve_profile(
        Cli {
            attach_main: false,
            ephemeral: true,
            allow_main_writes: false,
            daemon_addr: None,
        },
        default_base(),
        Some(fresh_dir()),
    )
    .unwrap();

    assert_eq!(profile.kind, ProfileKind::Ephemeral);
    assert!(profile.is_test());
    assert!(
        profile.tempdir.is_some(),
        "ephemeral profile must own a tempdir"
    );
}

#[test]
fn main_profile_has_no_env_overrides() {
    let cli = Cli {
        attach_main: true,
        ..blank_cli()
    };
    let resolved = resolve_profile(cli, default_base(), None).unwrap();
    assert_eq!(resolved.kind, ProfileKind::Main);
    assert!(resolved.env_overrides.is_empty());
    assert!(!resolved.is_test());
}

#[test]
fn persistent_profile_under_xdg_data_home() {
    let base = persistent_test_base(Some("/tmp/test-shore-mcp-xdg".to_string()), None);
    let resolved = resolve_profile(blank_cli(), base, None).unwrap();
    assert_eq!(resolved.kind, ProfileKind::PersistentTest);
    for (_, path) in &resolved.env_overrides {
        assert!(path.starts_with("/tmp/test-shore-mcp-xdg/shore-mcp-test"));
    }
}

#[test]
fn ephemeral_profile_keeps_tempdir_alive() {
    let cli = Cli {
        ephemeral: true,
        ..blank_cli()
    };
    let resolved = resolve_profile(cli, default_base(), Some(fresh_dir())).unwrap();
    assert_eq!(resolved.kind, ProfileKind::Ephemeral);
    let tempdir_path = resolved.tempdir.as_ref().unwrap().path().to_path_buf();
    assert!(tempdir_path.exists());
    for (_, path) in &resolved.env_overrides {
        assert!(path.starts_with(tempdir_path.to_str().unwrap()));
    }
    assert_eq!(resolved.env_overrides.len(), 3);
    assert_eq!(
        resolved.env_overrides,
        build_env_overrides(tempdir_path.to_str().unwrap())
    );
}

#[test]
fn ephemeral_overrides_follow_the_given_directory() {
    let cli = Cli {
        ephemeral: true,
        ..blank_cli()
    };
    let dir = tempfile::tempdir().unwrap();
    let resolved = resolve_profile(
        cli,
        default_base(),
        Some(EphemeralDir { path: "/scratch/eph".to_string(), dir }),
    )
    .unwrap();
    assert_eq!(resolved.env_overrides, build_env_overrides("/scratch/eph"));
    assert_eq!(resolved.env_overrides[0].1, "/scratch/eph/config");
}

#[test]
fn ephemeral_without_tempdir_is_an_error() {
    let cli = Cli {
        ephemeral: true,
        ..blank_cli()
    };
    assert_eq!(
        resolve_profile(cli, default_base(), None).err(),
        Some(ProfileError::MissingTempDir)
    );
}

#[test]
fn attach_main_drops_an_offered_tempdir() {
    let dir = fresh_dir();
    let path = dir.dir.path().to_path_buf();
    let cli = Cli {
        attach_main: true,
        ..blank_cli()
    };
    let resolved = resolve_profile(cli, default_base(), Some(dir)).unwrap();
    assert!(resolved.tempdir.is_none());
    assert!(!path.exists());
}

#[test]
fn persistent_base_prefers_nonempty_xdg() {
    assert_eq!(
        persistent_test_base(Some("/x/data".into()), Some("/home/u".into())),
        "/x/data/shore-mcp-test"
    );
    assert_eq!(
        persistent_test_base(Some("/x/data/".into()), None),
        "/x/data/shore-mcp-test"
    );
    assert_eq!(
        persistent_test_base(Some(String::new()), Some("/home/u".into())),
        "/home/u/.local/share/shore-mcp-test"
    );
    assert_eq!(
        persistent_test_base(None, Some("/home/u".into())),
        "/home/u/.local/share/shore-mcp-test"
    );
    assert_eq!(persistent_test_base(None, None), "/tmp/shore-mcp-test");
    assert_eq!(
        persistent_test_base(Some(String::new()), None),
        "/tmp/shore-mcp-test"
    );
}

#[test]
fn env_overrides_are_exact() {
    let o = build_env_overrides("/base");
    assert_eq!(
        o,
        vec![
            ("SHORE_CONFIG_DIR".to_string(), "/base/config".to_string()),
            ("SHORE_DATA_DIR".to_string(), "/base/data".to_string()),
            ("SHORE_RUNTIME_DIR".to_string(), "/base/runtime".to_string()),
        ]
    );
    let o = build_env_overrides("/base/");
    assert_eq!(o[1].1, "/base/data");
}

#[test]
fn profile_kind_follows_flags() {
    assert_eq!(profile_kind(&blank_cli()), ProfileKind::PersistentTest);
    assert_eq!(
        profile_kind(&Cli { ephemeral: true, ..blank_cli() }),
        ProfileKind::Ephemeral
    );
    assert_eq!(
        profile_kind(&Cli { attach_main: true, ..blank_cli() }),
        ProfileKind::Main
    );
    assert_eq!(MCP_INSTANCE_ID, "shore-mcp-test");
}
