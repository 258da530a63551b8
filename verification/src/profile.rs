//! Which daemon profile the bridge works against, and where the isolated
//! test profiles keep their configuration, data and runtime files.
use vstd::prelude::*;

use crate::cli::Cli;
use crate::text::{join_path, joined_path};

verus! {

#[verifier::external_type_specification]
#[verifier::external_body]
pub struct ExTempDir(tempfile::TempDir);

/// Kind of profile the bridge resolved to.
#[derive(Debug, Clone, Copy, PartialEq, Eq, Structural)]
pub enum ProfileKind {
    /// The user's real daemon (`--attach-main`).
    Main,
    /// The persistent test profile under the data directory (the default).
    PersistentTest,
    /// A temporary directory, removed when the bridge exits (`--ephemeral`).
    Ephemeral,
}

/// The instance id under which the bridge registers its own test daemon.
pub const MCP_INSTANCE_ID: &'static str = "shore-mcp-test";

/// A resolved profile: its kind, the environment variables to export before
/// discovering or spawning a daemon, and the temporary directory that backs
/// an ephemeral profile for as long as this value lives.
#[derive(Debug)]
pub struct ResolvedProfile {
    pub kind: ProfileKind,
    /// `(variable, value)` pairs; empty for the main profile.
    pub env_overrides: Vec<(String, String)>,
    /// Set only for an ephemeral profile.
    pub tempdir: Option<tempfile::TempDir>,
}

/// Why a profile could not be resolved.
#[derive(Debug, Clone, Copy, PartialEq, Eq, Structural)]
pub enum ProfileError {
    /// An ephemeral profile was asked for but no temporary directory was given.
    MissingTempDir,
}

/// The kind of profile that the options select.
pub open spec fn profile_kind_of(cli: Cli) -> ProfileKind {
    if cli.attach_main {
        ProfileKind::Main
    } else if cli.ephemeral {
        ProfileKind::Ephemeral
    } else {
        ProfileKind::PersistentTest
    }
}

/// The `(variable, value)` pairs as character sequences.
pub open spec fn pairs_view(pairs: Seq<(String, String)>) -> Seq<(Seq<char>, Seq<char>)> {
    pairs.map_values(|p: (String, String)| (p.0@, p.1@))
}

/// The variables that point a daemon at the profile rooted at `base`.
pub open spec fn env_overrides_for(base: Seq<char>) -> Seq<(Seq<char>, Seq<char>)> {
    seq![
        ("SHORE_CONFIG_DIR"@, joined_path(base, "config"@)),
        ("SHORE_DATA_DIR"@, joined_path(base, "data"@)),
        ("SHORE_RUNTIME_DIR"@, joined_path(base, "runtime"@)),
    ]
}

/// Where the persistent test profile lives: `<XDG_DATA_HOME>/shore-mcp-test`
/// when that variable is set and not empty, else
/// `<HOME>/.local/share/shore-mcp-test`, else `/tmp/shore-mcp-test`.
pub open spec fn persistent_base_for(xdg_data_home: Option<String>, home: Option<String>) -> Seq<char> {
    if xdg_data_home matches Some(xdg) && xdg@.len() > 0 {
        joined_path(xdg_data_home->0@, "shore-mcp-test"@)
    } else if home is Some {
        joined_path(
            joined_path(joined_path(home->0@, ".local"@), "share"@),
            "shore-mcp-test"@,
        )
    } else {
        "/tmp/shore-mcp-test"@
    }
}

impl ResolvedProfile {
    /// Whether this is an isolated test profile, i.e. not the main one.
    pub fn is_test(&self) -> (test: bool)
        ensures
            test == (self.kind != ProfileKind::Main),
    {
        match self.kind {
            ProfileKind::Main => false,
            _ => true,
        }
    }
}

/// The kind of profile that the options select.
pub fn profile_kind(cli: &Cli) -> (kind: ProfileKind)
    ensures
        kind == profile_kind_of(*cli),
{
    if cli.attach_main {
        ProfileKind::Main
    } else if cli.ephemeral {
        ProfileKind::Ephemeral
    } else {
        ProfileKind::PersistentTest
    }
}

/// Default location of the persistent test profile, from the values of
/// `XDG_DATA_HOME` and of the home directory. It never lies inside the
/// user's real profile.
pub fn persistent_test_base(xdg_data_home: Option<String>, home: Option<String>) -> (base: String)
    ensures
        base@ == persistent_base_for(xdg_data_home, home),
{
    if let Some(xdg) = &xdg_data_home {
        if xdg.as_str().unicode_len() > 0 {
            return join_path(xdg.as_str(), "shore-mcp-test");
        }
    }
    if let Some(h) = &home {
        let local = join_path(h.as_str(), ".local");
        let share = join_path(local.as_str(), "share");
        return join_path(share.as_str(), "shore-mcp-test");
    }
    let fallback = "/tmp/shore-mcp-test";
    fallback.to_owned()
}

/// The variables that point a daemon at the profile rooted at `base`.
pub fn build_env_overrides(base: &str) -> (overrides: Vec<(String, String)>)
    ensures
        pairs_view(overrides@) == env_overrides_for(base@),
{
    let mut overrides: Vec<(String, String)> = Vec::new();
    overrides.push(("SHORE_CONFIG_DIR".to_owned(), join_path(base, "config")));
    overrides.push(("SHORE_DATA_DIR".to_owned(), join_path(base, "data")));
    overrides.push(("SHORE_RUNTIME_DIR".to_owned(), join_path(base, "runtime")));
    assert(pairs_view(overrides@) =~= env_overrides_for(base@));
    overrides
}

/// The temporary directory that backs an ephemeral profile, together with
/// its path as text.
#[derive(Debug)]
pub struct EphemeralDir {
    /// Where the directory lies.
    pub path: String,
    /// The directory itself; it is removed when this handle is dropped.
    pub dir: tempfile::TempDir,
}

/// Resolves the profile selected by `cli`.
///
/// `persistent_base` is the root of the persistent test profile (see
/// [`persistent_test_base`]); `ephemeral_dir` is the temporary directory
/// created for an ephemeral profile. An ephemeral profile points the daemon
/// at that directory and keeps it alive in the result; other profiles drop it.
pub fn resolve_profile(cli: Cli, persistent_base: String, ephemeral_dir: Option<EphemeralDir>) -> (resolved: Result<ResolvedProfile, ProfileError>)
    ensures
        resolved is Err <==> (profile_kind_of(cli) == ProfileKind::Ephemeral && ephemeral_dir is None),
        resolved matches Err(e) ==> e == ProfileError::MissingTempDir,
        resolved matches Ok(p) ==> {
            &&& p.kind == profile_kind_of(cli)
            &&& p.kind == ProfileKind::Main ==> p.env_overrides@.len() == 0 && p.tempdir is None
            &&& p.kind == ProfileKind::PersistentTest ==> {
                &&& pairs_view(p.env_overrides@) == env_overrides_for(persistent_base@)
                &&& p.tempdir is None
            }
            &&& p.kind == ProfileKind::Ephemeral ==> {
                &&& ephemeral_dir is Some
                &&& p.tempdir == Some(ephemeral_dir->0.dir)
                &&& pairs_view(p.env_overrides@) == env_overrides_for(ephemeral_dir->0.path@)
            }
        },
{
    if cli.attach_main {
        return Ok(ResolvedProfile { kind: ProfileKind::Main, env_overrides: Vec::new(), tempdir: None });
    }
    if cli.ephemeral {
        match ephemeral_dir {
            Some(ephemeral) => {
                let overrides = build_env_overrides(ephemeral.path.as_str());
                return Ok(
                    ResolvedProfile {
                        kind: ProfileKind::Ephemeral,
                        env_overrides: overrides,
                        tempdir: Some(ephemeral.dir),
                    },
                );
            },
            None => {
                return Err(ProfileError::MissingTempDir);
            },
        }
    }
    let overrides = build_env_overrides(persistent_base.as_str());
    Ok(ResolvedProfile { kind: ProfileKind::PersistentTest, env_overrides: overrides, tempdir: None })
}

/// Whether `s` ends with a `/` followed by `component`.
pub open spec fn ends_with_component(s: Seq<char>, component: Seq<char>) -> bool {
    &&& s.len() > component.len()
    &&& s[s.len() - component.len() - 1] == '/'
    &&& s.subrange(s.len() - component.len(), s.len() as int) == component
}

proof fn lemma_join_ends_with_child(base: Seq<char>, child: Seq<char>)
    requires
        base.len() > 0,
        child.len() > 0,
        child[0] != '/',
    ensures
        ends_with_component(joined_path(base, child), child),
        joined_path(base, child).len() > 0,
{
    let j = joined_path(base, child);
    assert(j.subrange(j.len() - child.len(), j.len() as int) =~= child);
}

/// The persistent test profile always lives in a directory of its own named
/// `shore-mcp-test`, whatever the environment holds.
pub proof fn persistent_base_is_own_directory(xdg_data_home: Option<String>, home: Option<String>)
    ensures
        ends_with_component(persistent_base_for(xdg_data_home, home), "shore-mcp-test"@),
{
    reveal_strlit("shore-mcp-test");
    reveal_strlit(".local");
    reveal_strlit("share");
    reveal_strlit("/tmp/shore-mcp-test");
    let name = "shore-mcp-test"@;
    if xdg_data_home matches Some(xdg) && xdg@.len() > 0 {
        lemma_join_ends_with_child(xdg_data_home->0@, name);
    } else if home is Some {
        let h = home->0@;
        let local = joined_path(h, ".local"@);
        assert(local.len() > 0);
        let share = joined_path(local, "share"@);
        lemma_join_ends_with_child(local, "share"@);
        lemma_join_ends_with_child(share, name);
    } else {
        let t = "/tmp/shore-mcp-test"@;
        assert(t.subrange(t.len() - name.len(), t.len() as int) =~= name);
    }
}

/// A profile rooted at `base` exports exactly the configuration, data and
/// runtime directories, and each of them lies under `base`.
pub proof fn overrides_lie_under_base(base: Seq<char>)
    ensures
        env_overrides_for(base).len() == 3,
        env_overrides_for(base)[0].0 == "SHORE_CONFIG_DIR"@,
        env_overrides_for(base)[1].0 == "SHORE_DATA_DIR"@,
        env_overrides_for(base)[2].0 == "SHORE_RUNTIME_DIR"@,
        forall|i: int|
            0 <= i < 3 ==> #[trigger] env_overrides_for(base)[i].1.subrange(0, base.len() as int)
                == base,
{
    reveal_strlit("config");
    reveal_strlit("data");
    reveal_strlit("runtime");
    let o = env_overrides_for(base);
    assert(o[0].1.subrange(0, base.len() as int) =~= base);
    assert(o[1].1.subrange(0, base.len() as int) =~= base);
    assert(o[2].1.subrange(0, base.len() as int) =~= base);
}

/// The persistent test profile lies in `XDG_DATA_HOME` when that is set and
/// not empty, else under the home directory's `.local/share`, else in
/// `/tmp/shore-mcp-test`.
pub proof fn persistent_base_follows_data_home(xdg_data_home: Option<String>, home: Option<String>)
    ensures
        xdg_data_home is Some && xdg_data_home->0@.len() > 0 ==> {
            let b = persistent_base_for(xdg_data_home, home);
            let x = xdg_data_home->0@;
            &&& b.subrange(0, x.len() as int) == x
            &&& b.len() <= x.len() + 15
        },
        !(xdg_data_home is Some && xdg_data_home->0@.len() > 0) && home is Some ==> {
            let b = persistent_base_for(xdg_data_home, home);
            &&& b.subrange(0, home->0@.len() as int) == home->0@
            &&& b.len() >= 27
            &&& b.subrange(b.len() - 27, b.len() as int) == ".local/share/shore-mcp-test"@
        },
        xdg_data_home is None && home is None ==> persistent_base_for(xdg_data_home, home)
            == "/tmp/shore-mcp-test"@,
{
    reveal_strlit("shore-mcp-test");
    reveal_strlit(".local");
    reveal_strlit("share");
    reveal_strlit(".local/share/shore-mcp-test");
    let name = "shore-mcp-test"@;
    if xdg_data_home is Some && xdg_data_home->0@.len() > 0 {
        crate::text::joining_keeps_base_and_appends_child(xdg_data_home->0@, name);
    } else if home is Some {
        let h = home->0@;
        let local = joined_path(h, ".local"@);
        let share = joined_path(local, "share"@);
        let b = joined_path(share, name);
        crate::text::joining_keeps_base_and_appends_child(h, ".local"@);
        assert(local.subrange(local.len() - 6, local.len() as int) =~= ".local"@);
        assert(local.last() == 'l');
        assert(share =~= local + seq!['/'] + "share"@);
        assert(share.last() == 'e');
        assert(b =~= share + seq!['/'] + name);
        assert(b =~= local + seq!['/'] + "share"@ + seq!['/'] + name);
        assert(b.subrange(b.len() - 27, b.len() as int) =~= ".local/share/shore-mcp-test"@);
        assert(b.subrange(0, h.len() as int) =~= local.subrange(0, h.len() as int));
    }
}

/// Each variable a profile rooted at a non-empty `base` exports names the
/// directory of its own kind under `base`: configuration in `config`, data
/// in `data`, runtime files in `runtime`.
pub proof fn each_variable_names_its_own_directory(base: Seq<char>)
    requires
        base.len() > 0,
    ensures
        ends_with_component(env_overrides_for(base)[0].1, "config"@),
        ends_with_component(env_overrides_for(base)[1].1, "data"@),
        ends_with_component(env_overrides_for(base)[2].1, "runtime"@),
{
    reveal_strlit("config");
    reveal_strlit("data");
    reveal_strlit("runtime");
    let o = env_overrides_for(base);
    assert(o[0].1 == joined_path(base, "config"@));
    assert(o[1].1 == joined_path(base, "data"@));
    assert(o[2].1 == joined_path(base, "runtime"@));
    lemma_join_ends_with_child(base, "config"@);
    lemma_join_ends_with_child(base, "data"@);
    lemma_join_ends_with_child(base, "runtime"@);
}

} // verus!
