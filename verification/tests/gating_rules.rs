use shore_mcp::gating::{check, classify, GateContext, GateDecision, ToolClass};
use shore_mcp::session::gate_context;
use shore_mcp::cli::Cli;

fn test_ctx(is_test: bool, allow_main_writes: bool) -> GateContext {
    GateContext {
        profile_is_test: is_test,
        allow_main_writes,
    }
}

#[test]
fn read_only_tools_always_allowed() {
    let ctx = test_ctx(false, false);
    for tool in &[
        "status",
        "status_diagnostics",
        "log_tail",
        "log_show",
        "log_heartbeat",
        "usage",
        "config_get",
        "config_check",
        "character_list",
        "character_info",
        "model_list",
        "model_info",
        "memory_query",
    ] {
        assert_eq!(
            check(tool, &ctx),
            GateDecision::Allow,
            "read-only tool {tool} should always be allowed"
        );
    }
}

#[test]
fn mutating_tools_allowed_on_test_profile() {
    let ctx = test_ctx(true, false);
    for tool in &[
        "send",
        "regen",
        "config_set",
        "character_switch",
        "model_switch",
        "log_delete",
    ] {
        assert_eq!(
            check(tool, &ctx),
            GateDecision::Allow,
            "mutating tool {tool} should be allowed on test profile"
        );
    }
}

#[test]
fn mutating_tools_refused_on_main_profile_without_allow_writes() {
    let ctx = test_ctx(false, false);
    for tool in &[
        "send",
        "regen",
        "config_set",
        "character_switch",
        "model_switch",
        "log_delete",
    ] {
        match check(tool, &ctx) {
            GateDecision::Refuse(_) => {}
            other => panic!("expected Refuse for {tool}, got {other:?}"),
        }
    }
}

#[test]
fn mutating_tools_allowed_on_main_with_explicit_opt_in() {
    let ctx = test_ctx(false, true);
    assert_eq!(check("send", &ctx), GateDecision::Allow);
    assert_eq!(check("config_set", &ctx), GateDecision::Allow);
}

#[test]
fn unknown_tools_are_refused() {
    let ctx = test_ctx(true, false);
    match check("nonexistent_tool", &ctx) {
        GateDecision::Refuse(msg) => assert!(msg.contains("unknown")),
        other => panic!("expected Refuse for unknown tool, got {other:?}"),
    }
}

#[test]
fn mutation_refusal_message_is_exact() {
    let ctx = test_ctx(false, false);
    assert_eq!(
        check("model_reset", &ctx),
        GateDecision::Refuse(
            "refused: tool `model_reset` mutates state and cannot run against the main profile. \
             Re-launch without --attach-main, or pass --allow-main-writes to opt in."
                .to_string()
        )
    );
}

#[test]
fn unknown_refusal_message_is_exact() {
    for ctx in [test_ctx(true, true), test_ctx(false, false)] {
        assert_eq!(
            check("statu", &ctx),
            GateDecision::Refuse("refused: unknown tool `statu`".to_string())
        );
    }
    assert_eq!(
        check("", &test_ctx(true, false)),
        GateDecision::Refuse("refused: unknown tool ``".to_string())
    );
}

#[test]
fn every_listed_tool_is_classified() {
    let read_only = [
        "status", "status_diagnostics", "log_tail", "log_show", "log_heartbeat", "log_follow",
        "usage", "config_get", "config_check", "config_path", "character_list",
        "character_info", "model_list", "model_info", "memory_query", "memory_changelog",
    ];
    let mutating = [
        "send", "regen", "log_delete", "log_edit", "config_set", "config_reset",
        "character_switch", "character_new", "model_switch", "model_reset", "memory_compact",
        "usage_refresh_pricing", "usage_recalculate", "debug_tick_now", "debug_status_dormant",
        "debug_status_active",
    ];
    for t in read_only {
        assert_eq!(classify(t), ToolClass::ReadOnly, "{t}");
    }
    for t in mutating {
        assert_eq!(classify(t), ToolClass::Mutating, "{t}");
    }
    for t in ["Status", "status ", "send_message", "memory", "debug"] {
        assert_eq!(classify(t), ToolClass::Unknown, "{t}");
    }
}

#[test]
fn read_only_tools_allowed_in_every_context() {
    for (t, w) in [(false, false), (false, true), (true, false), (true, true)] {
        assert_eq!(check("log_follow", &test_ctx(t, w)), GateDecision::Allow);
        assert_eq!(check("config_path", &test_ctx(t, w)), GateDecision::Allow);
    }
}

#[test]
fn more_permission_keeps_allowed_calls_allowed() {
    let narrow = test_ctx(false, true);
    let wide = test_ctx(true, true);
    for tool in ["send", "status", "debug_tick_now"] {
        assert_eq!(check(tool, &narrow), GateDecision::Allow);
        assert_eq!(check(tool, &wide), GateDecision::Allow);
    }
}

#[test]
fn opt_in_is_inert_on_test_profile() {
    for tool in ["send", "status", "bogus"] {
        assert_eq!(check(tool, &test_ctx(true, false)), check(tool, &test_ctx(true, true)));
    }
}

#[test]
fn session_gate_follows_options() {
    let cli = Cli {
        attach_main: true,
        ephemeral: false,
        allow_main_writes: false,
        daemon_addr: None,
    };
    let ctx = gate_context(&cli, false);
    assert!(!ctx.profile_is_test);
    assert!(!ctx.allow_main_writes);
    assert!(matches!(check("config_reset", &ctx), GateDecision::Refuse(_)));
    let opted = Cli { allow_main_writes: true, ..cli };
    let ctx = gate_context(&opted, false);
    assert!(ctx.allow_main_writes);
    assert_eq!(check("config_reset", &ctx), GateDecision::Allow);
    let ctx = gate_context(&opted, true);
    assert!(ctx.profile_is_test);
}
