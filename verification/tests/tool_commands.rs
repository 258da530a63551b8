use shore_mcp::gating::GateContext;
use shore_mcp::tools::{
    default_count, default_follow_cap, default_follow_seconds, default_last, default_tail_count,
    inject_system_command, plan_send, wants_overrides, SendPlan, ArgValue, CharacterInfoParams, CharacterListParams,
    CharacterSwitchParams, ConfigCheckParams, ConfigGetParams, ConfigResetParams,
    ConfigSetParams, DiagnosticsParams, LogDeleteParams, LogEditParams, LogHeartbeatParams,
    LogShowParams, LogTailParams, ModelInfoParams, ModelListParams, ModelResetParams,
    ModelSwitchParams, StatusParams, ToolCommand, UsageParams,
};

fn parts(c: &ToolCommand) -> (&str, &str, Vec<(&str, ArgValue)>) {
    (
        c.tool.as_str(),
        c.command.as_str(),
        c.args.iter().map(|(k, v)| (k.as_str(), v.clone())).collect(),
    )
}

fn text(s: &str) -> ArgValue {
    ArgValue::Text(s.to_string())
}

#[test]
fn defaults() {
    assert_eq!(default_tail_count(), 20);
    assert_eq!(default_follow_seconds(), 5);
    assert_eq!(default_follow_cap(), 50);
    assert_eq!(default_count(), 10);
    assert_eq!(default_last(), "today");
}

#[test]
fn argument_free_commands() {
    assert_eq!(parts(&StatusParams {}.into_command()), ("status", "status", vec![]));
    assert_eq!(
        parts(&CharacterListParams {}.into_command()),
        ("character_list", "list_characters", vec![])
    );
    assert_eq!(
        parts(&ConfigCheckParams {}.into_command()),
        ("config_check", "config_check", vec![])
    );
    assert_eq!(
        parts(&ConfigResetParams {}.into_command()),
        ("config_reset", "config_reset", vec![])
    );
    assert_eq!(
        parts(&ModelListParams {}.into_command()),
        ("model_list", "list_models", vec![])
    );
    assert_eq!(
        parts(&ModelResetParams {}.into_command()),
        ("model_reset", "reset_model", vec![])
    );
}

#[test]
fn counted_commands() {
    assert_eq!(
        parts(&DiagnosticsParams { count: 10 }.into_command()),
        ("status_diagnostics", "diagnostics", vec![("count", ArgValue::Number(10))])
    );
    assert_eq!(
        parts(&LogTailParams { count: 20 }.into_command()),
        ("log_tail", "log", vec![("count", ArgValue::Number(20))])
    );
    assert_eq!(
        parts(&LogHeartbeatParams { count: 3 }.into_command()),
        ("log_heartbeat", "heartbeat_log", vec![("count", ArgValue::Number(3))])
    );
}

#[test]
fn optional_name_commands() {
    assert_eq!(
        parts(&CharacterInfoParams { name: Some("ada".into()) }.into_command()),
        ("character_info", "character_info", vec![("name", text("ada"))])
    );
    assert_eq!(
        parts(&CharacterInfoParams { name: None }.into_command()),
        ("character_info", "character_info", vec![])
    );
    assert_eq!(
        parts(&ModelInfoParams { name: Some("m".into()) }.into_command()),
        ("model_info", "model_info", vec![("name", text("m"))])
    );
    assert_eq!(
        parts(&ModelInfoParams { name: None }.into_command()),
        ("model_info", "model_info", vec![])
    );
}

#[test]
fn switch_commands() {
    assert_eq!(
        parts(&CharacterSwitchParams { name: "bob".into() }.into_command()),
        ("character_switch", "switch_character", vec![("name", text("bob"))])
    );
    assert_eq!(
        parts(&ModelSwitchParams { name: "m2".into() }.into_command()),
        ("model_switch", "switch_model", vec![("name", text("m2"))])
    );
}

#[test]
fn config_commands() {
    assert_eq!(
        parts(&ConfigGetParams { key: Some("a.b".into()) }.into_command()),
        ("config_get", "config", vec![("key", text("a.b")), ("value", ArgValue::Null)])
    );
    assert_eq!(
        parts(&ConfigGetParams { key: None }.into_command()),
        ("config_get", "config", vec![("key", text("")), ("value", ArgValue::Null)])
    );
    assert_eq!(
        parts(&ConfigSetParams { key: "k".into(), value: "v".into() }.into_command()),
        ("config_set", "config", vec![("key", text("k")), ("value", text("v"))])
    );
}

#[test]
fn log_commands() {
    assert_eq!(
        parts(&LogShowParams { msg_ref: "last".into() }.into_command()),
        ("log_show", "get", vec![("ref", text("last"))])
    );
    assert_eq!(
        parts(&LogDeleteParams { msg_refs: vec!["1".into(), "-1".into()] }.into_command()),
        (
            "log_delete",
            "delete",
            vec![("refs", ArgValue::TextList(vec!["1".to_string(), "-1".to_string()]))]
        )
    );
    assert_eq!(
        parts(&LogEditParams { msg_ref: "3".into(), content: "hi".into() }.into_command()),
        ("log_edit", "edit", vec![("ref", text("3")), ("content", text("hi"))])
    );
}

#[test]
fn usage_command() {
    let p = UsageParams {
        last: "7d".into(),
        character: Some("ada".into()),
        provider: None,
        api_key: None,
        model: Some("m".into()),
        call_type: None,
        by_call_type: true,
        by_kind: false,
        by_api_key: false,
        anomalies: true,
    };
    let c = p.into_command();
    assert_eq!(
        parts(&c),
        (
            "usage",
            "usage",
            vec![
                ("last", text("7d")),
                ("character", text("ada")),
                ("provider", ArgValue::Null),
                ("api_key", ArgValue::Null),
                ("model", text("m")),
                ("call_type", ArgValue::Null),
                ("by_call_type", ArgValue::Bool(true)),
                ("by_kind", ArgValue::Bool(false)),
                ("by_api_key", ArgValue::Bool(false)),
                ("anomalies", ArgValue::Bool(true)),
                ("export_csv", ArgValue::Bool(false)),
                ("export_tsv", ArgValue::Bool(false)),
                ("refresh_pricing", ArgValue::Bool(false)),
                ("recalculate", ArgValue::Bool(false)),
                ("force", ArgValue::Bool(false)),
            ]
        )
    );
}

#[test]
fn send_helpers() {
    assert_eq!(
        parts(&inject_system_command("be brief".into())),
        ("send", "inject_system", vec![("text", text("be brief"))])
    );
    assert!(!wants_overrides(false, false, None));
    assert!(wants_overrides(true, false, None));
    assert!(wants_overrides(false, true, None));
    assert!(wants_overrides(false, false, Some(0)));
}

#[test]
fn send_is_checked_before_anything_is_sent() {
    let main = GateContext { profile_is_test: false, allow_main_writes: false };
    let test = GateContext { profile_is_test: true, allow_main_writes: false };
    for system in [false, true] {
        match plan_send("hi".into(), system, &main) {
            SendPlan::Refuse(msg) => assert!(msg.starts_with("refused: tool `send`")),
            other => panic!("expected a refusal, got {other:?}"),
        }
    }
    match plan_send("hi".into(), false, &test) {
        SendPlan::Stream(text) => assert_eq!(text, "hi"),
        other => panic!("expected a streamed send, got {other:?}"),
    }
    match plan_send("be terse".into(), true, &test) {
        SendPlan::InjectSystem(c) => assert_eq!(
            parts(&c),
            ("send", "inject_system", vec![("text", text("be terse"))])
        ),
        other => panic!("expected a system injection, got {other:?}"),
    }
}
