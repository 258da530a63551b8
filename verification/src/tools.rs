//! The tools the bridge exposes: their parameters, their defaults, and the
//! daemon command each one sends, with its arguments as plain values.
use vstd::prelude::*;

use crate::gating::{check, decision_for, GateContext, GateDecision};

verus! {

/// An argument value of a daemon command.
#[derive(Debug, Clone, PartialEq, Eq)]
pub enum ArgValue {
    Null,
    Bool(bool),
    Number(u64),
    Text(String),
    TextList(Vec<String>),
}

/// The mathematical reading of an [`ArgValue`].
pub enum ArgView {
    Null,
    Bool(bool),
    Number(u64),
    Text(Seq<char>),
    TextList(Seq<Seq<char>>),
}

impl View for ArgValue {
    type V = ArgView;

    open spec fn view(&self) -> ArgView {
        match self {
            ArgValue::Null => ArgView::Null,
            ArgValue::Bool(b) => ArgView::Bool(*b),
            ArgValue::Number(n) => ArgView::Number(*n),
            ArgValue::Text(s) => ArgView::Text(s@),
            ArgValue::TextList(v) => ArgView::TextList(v@.map_values(|s: String| s@)),
        }
    }
}

/// A daemon command issued on behalf of a tool: the tool name that access is
/// decided on, the daemon's command name, and named arguments in order.
#[derive(Debug)]
pub struct ToolCommand {
    pub tool: String,
    pub command: String,
    pub args: Vec<(String, ArgValue)>,
}

/// The mathematical reading of a [`ToolCommand`].
pub struct CommandView {
    pub tool: Seq<char>,
    pub command: Seq<char>,
    pub args: Seq<(Seq<char>, ArgView)>,
}

impl View for ToolCommand {
    type V = CommandView;

    open spec fn view(&self) -> CommandView {
        CommandView {
            tool: self.tool@,
            command: self.command@,
            args: self.args@.map_values(|p: (String, ArgValue)| (p.0@, p.1@)),
        }
    }
}

/// The command view with the given parts.
pub open spec fn command_view(
    tool: Seq<char>,
    command: Seq<char>,
    args: Seq<(Seq<char>, ArgView)>,
) -> CommandView {
    CommandView { tool, command, args }
}

/// Text when present, null when absent.
pub open spec fn optional_text(value: Option<String>) -> ArgView {
    match value {
        Some(s) => ArgView::Text(s@),
        None => ArgView::Null,
    }
}

fn optional_arg(value: Option<String>) -> (arg: ArgValue)
    ensures
        arg@ == optional_text(value),
{
    match value {
        Some(s) => ArgValue::Text(s),
        None => ArgValue::Null,
    }
}

fn named(name: &str, value: ArgValue) -> (pair: (String, ArgValue))
    ensures
        pair.0@ == name@,
        pair.1 == value,
{
    (name.to_owned(), value)
}

fn tool_command(tool: &str, command: &str, args: Vec<(String, ArgValue)>) -> (c: ToolCommand)
    ensures
        c.tool@ == tool@,
        c.command@ == command@,
        c.args == args,
{
    ToolCommand { tool: tool.to_owned(), command: command.to_owned(), args }
}

/// Number of recent messages `log_tail` and `log_heartbeat` return by default.
pub fn default_tail_count() -> (n: u32)
    ensures
        n == 20,
{
    20
}

/// Seconds `log_follow` runs by default.
pub fn default_follow_seconds() -> (n: u64)
    ensures
        n == 5,
{
    5
}

/// Messages `log_follow` keeps at most by default.
pub fn default_follow_cap() -> (n: u32)
    ensures
        n == 50,
{
    50
}

/// Number of diagnostics entries `status_diagnostics` returns by default.
pub fn default_count() -> (n: u32)
    ensures
        n == 10,
{
    10
}

/// The usage period reported by default.
pub fn default_last() -> (s: String)
    ensures
        s@ == "today"@,
{
    "today".to_owned()
}

/// Parameters of `status`.
#[derive(Debug)]
pub struct StatusParams {}

/// Parameters of `status_diagnostics`.
#[derive(Debug)]
pub struct DiagnosticsParams {
    pub count: u32,
}

/// Parameters of `character_list`.
#[derive(Debug)]
pub struct CharacterListParams {}

/// Parameters of `character_info`.
#[derive(Debug)]
pub struct CharacterInfoParams {
    /// Character to query; the current one when absent.
    pub name: Option<String>,
}

/// Parameters of `character_switch`.
#[derive(Debug)]
pub struct CharacterSwitchParams {
    pub name: String,
}

/// Parameters of `config_get`.
#[derive(Debug)]
pub struct ConfigGetParams {
    /// Key to read; the whole configuration when absent.
    pub key: Option<String>,
}

/// Parameters of `config_set`.
#[derive(Debug)]
pub struct ConfigSetParams {
    pub key: String,
    pub value: String,
}

/// Parameters of `config_check`.
#[derive(Debug)]
pub struct ConfigCheckParams {}

/// Parameters of `config_reset`.
#[derive(Debug)]
pub struct ConfigResetParams {}

/// Parameters of `log_tail`.
#[derive(Debug)]
pub struct LogTailParams {
    /// Number of recent messages to return.
    pub count: u32,
}

/// Parameters of `log_follow`.
#[derive(Debug)]
pub struct LogFollowParams {
    pub seconds: u64,
    pub cap: u32,
}

/// Parameters of `log_show`.
#[derive(Debug)]
pub struct LogShowParams {
    /// Message reference, such as "last", "-1" or "3".
    pub msg_ref: String,
}

/// Parameters of `log_delete`.
#[derive(Debug)]
pub struct LogDeleteParams {
    /// Message references to delete.
    pub msg_refs: Vec<String>,
}

/// Parameters of `log_edit`.
#[derive(Debug)]
pub struct LogEditParams {
    pub msg_ref: String,
    pub content: String,
}

/// Parameters of `log_heartbeat`.
#[derive(Debug)]
pub struct LogHeartbeatParams {
    pub count: u32,
}

/// Parameters of `model_list`.
#[derive(Debug)]
pub struct ModelListParams {}

/// Parameters of `model_info`.
#[derive(Debug)]
pub struct ModelInfoParams {
    pub name: Option<String>,
}

/// Parameters of `model_switch`.
#[derive(Debug)]
pub struct ModelSwitchParams {
    pub name: String,
}

/// Parameters of `model_reset`.
#[derive(Debug)]
pub struct ModelResetParams {}

/// Parameters of `regen`.
#[derive(Debug)]
pub struct RegenParams {
    /// Guidance for the regeneration.
    pub guidance: Option<String>,
}

/// Parameters of `usage`.
#[derive(Debug)]
pub struct UsageParams {
    /// Time period: "today", "4h", "7d", "30d" or "all".
    pub last: String,
    pub character: Option<String>,
    pub provider: Option<String>,
    pub api_key: Option<String>,
    pub model: Option<String>,
    pub call_type: Option<String>,
    /// Group by call type instead of filtering.
    pub by_call_type: bool,
    /// Group by higher-level usage kind.
    pub by_kind: bool,
    /// Group by provider and configured API key name.
    pub by_api_key: bool,
    pub anomalies: bool,
}

/// What `send` and `regen` report of the assembled response.
#[derive(Debug)]
pub struct SendOutput {
    pub text: String,
    pub finish_reason: String,
    pub model: String,
    pub tokens_in: u32,
    pub tokens_out: u32,
    pub total_ms: u32,
    pub tool_calls: usize,
    pub tool_results: usize,
}

impl StatusParams {
    /// The daemon command `status` sends.
    pub fn into_command(self) -> (c: ToolCommand)
        ensures
            c@ == command_view("status"@, "status"@, seq![]),
    {
        let c = tool_command("status", "status", Vec::new());
        assert(c@.args =~= seq![]);
        c
    }
}

impl DiagnosticsParams {
    /// The daemon command `status_diagnostics` sends.
    pub fn into_command(self) -> (c: ToolCommand)
        ensures
            c@ == command_view(
                "status_diagnostics"@,
                "diagnostics"@,
                seq![("count"@, ArgView::Number(self.count as u64))],
            ),
    {
        let mut args: Vec<(String, ArgValue)> = Vec::new();
        args.push(named("count", ArgValue::Number(self.count as u64)));
        let c = tool_command("status_diagnostics", "diagnostics", args);
        assert(c@.args =~= seq![("count"@, ArgView::Number(self.count as u64))]);
        c
    }
}

impl CharacterListParams {
    /// The daemon command `character_list` sends.
    pub fn into_command(self) -> (c: ToolCommand)
        ensures
            c@ == command_view("character_list"@, "list_characters"@, seq![]),
    {
        let c = tool_command("character_list", "list_characters", Vec::new());
        assert(c@.args =~= seq![]);
        c
    }
}

impl CharacterInfoParams {
    /// The daemon command `character_info` sends: the name when given, no
    /// argument otherwise.
    pub fn into_command(self) -> (c: ToolCommand)
        ensures
            c@ == command_view(
                "character_info"@,
                "character_info"@,
                match self.name {
                    Some(n) => seq![("name"@, ArgView::Text(n@))],
                    None => seq![],
                },
            ),
    {
        let ghost name = self.name;
        let mut args: Vec<(String, ArgValue)> = Vec::new();
        if let Some(n) = self.name {
            args.push(named("name", ArgValue::Text(n)));
        }
        let c = tool_command("character_info", "character_info", args);
        assert(c@.args =~= match name {
            Some(n) => seq![("name"@, ArgView::Text(n@))],
            None => seq![],
        });
        c
    }
}

impl CharacterSwitchParams {
    /// The daemon command `character_switch` sends.
    pub fn into_command(self) -> (c: ToolCommand)
        ensures
            c@ == command_view(
                "character_switch"@,
                "switch_character"@,
                seq![("name"@, ArgView::Text(self.name@))],
            ),
    {
        let ghost name = self.name@;
        let mut args: Vec<(String, ArgValue)> = Vec::new();
        args.push(named("name", ArgValue::Text(self.name)));
        let c = tool_command("character_switch", "switch_character", args);
        assert(c@.args =~= seq![("name"@, ArgView::Text(name))]);
        c
    }
}

impl ConfigGetParams {
    /// The daemon command `config_get` sends: the key (empty when absent, which
    /// reads the whole configuration) and a null value.
    pub fn into_command(self) -> (c: ToolCommand)
        ensures
            c@ == command_view(
                "config_get"@,
                "config"@,
                seq![
                    ("key"@, ArgView::Text(match self.key { Some(k) => k@, None => Seq::empty() })),
                    ("value"@, ArgView::Null),
                ],
            ),
    {
        let ghost key = self.key;
        let key_text = match self.key {
            Some(k) => k,
            None => String::new(),
        };
        let mut args: Vec<(String, ArgValue)> = Vec::new();
        args.push(named("key", ArgValue::Text(key_text)));
        args.push(named("value", ArgValue::Null));
        let c = tool_command("config_get", "config", args);
        assert(c@.args =~= seq![
            ("key"@, ArgView::Text(match key { Some(k) => k@, None => Seq::empty() })),
            ("value"@, ArgView::Null),
        ]);
        c
    }
}

impl ConfigSetParams {
    /// The daemon command `config_set` sends.
    pub fn into_command(self) -> (c: ToolCommand)
        ensures
            c@ == command_view(
                "config_set"@,
                "config"@,
                seq![("key"@, ArgView::Text(self.key@)), ("value"@, ArgView::Text(self.value@))],
            ),
    {
        let ghost key = self.key@;
        let ghost value = self.value@;
        let mut args: Vec<(String, ArgValue)> = Vec::new();
        args.push(named("key", ArgValue::Text(self.key)));
        args.push(named("value", ArgValue::Text(self.value)));
        let c = tool_command("config_set", "config", args);
        assert(c@.args =~= seq![("key"@, ArgView::Text(key)), ("value"@, ArgView::Text(value))]);
        c
    }
}

impl ConfigCheckParams {
    /// The daemon command `config_check` sends.
    pub fn into_command(self) -> (c: ToolCommand)
        ensures
            c@ == command_view("config_check"@, "config_check"@, seq![]),
    {
        let c = tool_command("config_check", "config_check", Vec::new());
        assert(c@.args =~= seq![]);
        c
    }
}

impl ConfigResetParams {
    /// The daemon command `config_reset` sends.
    pub fn into_command(self) -> (c: ToolCommand)
        ensures
            c@ == command_view("config_reset"@, "config_reset"@, seq![]),
    {
        let c = tool_command("config_reset", "config_reset", Vec::new());
        assert(c@.args =~= seq![]);
        c
    }
}

impl LogTailParams {
    /// The daemon command `log_tail` sends.
    pub fn into_command(self) -> (c: ToolCommand)
        ensures
            c@ == command_view(
                "log_tail"@,
                "log"@,
                seq![("count"@, ArgView::Number(self.count as u64))],
            ),
    {
        let mut args: Vec<(String, ArgValue)> = Vec::new();
        args.push(named("count", ArgValue::Number(self.count as u64)));
        let c = tool_command("log_tail", "log", args);
        assert(c@.args =~= seq![("count"@, ArgView::Number(self.count as u64))]);
        c
    }
}

impl LogShowParams {
    /// The daemon command `log_show` sends.
    pub fn into_command(self) -> (c: ToolCommand)
        ensures
            c@ == command_view("log_show"@, "get"@, seq![("ref"@, ArgView::Text(self.msg_ref@))]),
    {
        let ghost msg_ref = self.msg_ref@;
        let mut args: Vec<(String, ArgValue)> = Vec::new();
        args.push(named("ref", ArgValue::Text(self.msg_ref)));
        let c = tool_command("log_show", "get", args);
        assert(c@.args =~= seq![("ref"@, ArgView::Text(msg_ref))]);
        c
    }
}

impl LogHeartbeatParams {
    /// The daemon command `log_heartbeat` sends.
    pub fn into_command(self) -> (c: ToolCommand)
        ensures
            c@ == command_view(
                "log_heartbeat"@,
                "heartbeat_log"@,
                seq![("count"@, ArgView::Number(self.count as u64))],
            ),
    {
        let mut args: Vec<(String, ArgValue)> = Vec::new();
        args.push(named("count", ArgValue::Number(self.count as u64)));
        let c = tool_command("log_heartbeat", "heartbeat_log", args);
        assert(c@.args =~= seq![("count"@, ArgView::Number(self.count as u64))]);
        c
    }
}

impl LogDeleteParams {
    /// The daemon command `log_delete` sends.
    pub fn into_command(self) -> (c: ToolCommand)
        ensures
            c@ == command_view(
                "log_delete"@,
                "delete"@,
                seq![("refs"@, ArgView::TextList(self.msg_refs@.map_values(|s: String| s@)))],
            ),
    {
        let ghost refs = self.msg_refs@.map_values(|s: String| s@);
        let mut args: Vec<(String, ArgValue)> = Vec::new();
        args.push(named("refs", ArgValue::TextList(self.msg_refs)));
        let c = tool_command("log_delete", "delete", args);
        assert(c@.args =~= seq![("refs"@, ArgView::TextList(refs))]);
        c
    }
}

impl LogEditParams {
    /// The daemon command `log_edit` sends.
    pub fn into_command(self) -> (c: ToolCommand)
        ensures
            c@ == command_view(
                "log_edit"@,
                "edit"@,
                seq![
                    ("ref"@, ArgView::Text(self.msg_ref@)),
                    ("content"@, ArgView::Text(self.content@)),
                ],
            ),
    {
        let ghost msg_ref = self.msg_ref@;
        let ghost content = self.content@;
        let mut args: Vec<(String, ArgValue)> = Vec::new();
        args.push(named("ref", ArgValue::Text(self.msg_ref)));
        args.push(named("content", ArgValue::Text(self.content)));
        let c = tool_command("log_edit", "edit", args);
        assert(c@.args =~= seq![
            ("ref"@, ArgView::Text(msg_ref)),
            ("content"@, ArgView::Text(content)),
        ]);
        c
    }
}

impl ModelListParams {
    /// The daemon command `model_list` sends.
    pub fn into_command(self) -> (c: ToolCommand)
        ensures
            c@ == command_view("model_list"@, "list_models"@, seq![]),
    {
        let c = tool_command("model_list", "list_models", Vec::new());
        assert(c@.args =~= seq![]);
        c
    }
}

impl ModelInfoParams {
    /// The daemon command `model_info` sends: the name when given, no
    /// argument otherwise.
    pub fn into_command(self) -> (c: ToolCommand)
        ensures
            c@ == command_view(
                "model_info"@,
                "model_info"@,
                match self.name {
                    Some(n) => seq![("name"@, ArgView::Text(n@))],
                    None => seq![],
                },
            ),
    {
        let ghost name = self.name;
        let mut args: Vec<(String, ArgValue)> = Vec::new();
        if let Some(n) = self.name {
            args.push(named("name", ArgValue::Text(n)));
        }
        let c = tool_command("model_info", "model_info", args);
        assert(c@.args =~= match name {
            Some(n) => seq![("name"@, ArgView::Text(n@))],
            None => seq![],
        });
        c
    }
}

impl ModelSwitchParams {
    /// The daemon command `model_switch` sends.
    pub fn into_command(self) -> (c: ToolCommand)
        ensures
            c@ == command_view(
                "model_switch"@,
                "switch_model"@,
                seq![("name"@, ArgView::Text(self.name@))],
            ),
    {
        let ghost name = self.name@;
        let mut args: Vec<(String, ArgValue)> = Vec::new();
        args.push(named("name", ArgValue::Text(self.name)));
        let c = tool_command("model_switch", "switch_model", args);
        assert(c@.args =~= seq![("name"@, ArgView::Text(name))]);
        c
    }
}

impl ModelResetParams {
    /// The daemon command `model_reset` sends.
    pub fn into_command(self) -> (c: ToolCommand)
        ensures
            c@ == command_view("model_reset"@, "reset_model"@, seq![]),
    {
        let c = tool_command("model_reset", "reset_model", Vec::new());
        assert(c@.args =~= seq![]);
        c
    }
}


/// The value of the first argument called `name`, if any.
pub open spec fn arg_named(args: Seq<(Seq<char>, ArgView)>, name: Seq<char>) -> Option<ArgView>
    decreases args.len(),
{
    if args.len() == 0 {
        None
    } else if args[0].0 == name {
        Some(args[0].1)
    } else {
        arg_named(args.drop_first(), name)
    }
}

/// Whether `args` carries, under each name, the parameter of that name of a
/// `usage` request: the period, each filter (null when absent) and each
/// grouping, with every export and refresh switched off.
pub open spec fn carries_usage_parameters(args: Seq<(Seq<char>, ArgView)>, p: UsageParams) -> bool {
    &&& arg_named(args, "last"@) == Some(ArgView::Text(p.last@))
    &&& arg_named(args, "character"@) == Some(optional_text(p.character))
    &&& arg_named(args, "provider"@) == Some(optional_text(p.provider))
    &&& arg_named(args, "api_key"@) == Some(optional_text(p.api_key))
    &&& arg_named(args, "model"@) == Some(optional_text(p.model))
    &&& arg_named(args, "call_type"@) == Some(optional_text(p.call_type))
    &&& arg_named(args, "by_call_type"@) == Some(ArgView::Bool(p.by_call_type))
    &&& arg_named(args, "by_kind"@) == Some(ArgView::Bool(p.by_kind))
    &&& arg_named(args, "by_api_key"@) == Some(ArgView::Bool(p.by_api_key))
    &&& arg_named(args, "anomalies"@) == Some(ArgView::Bool(p.anomalies))
    &&& arg_named(args, "export_csv"@) == Some(ArgView::Bool(false))
    &&& arg_named(args, "export_tsv"@) == Some(ArgView::Bool(false))
    &&& arg_named(args, "refresh_pricing"@) == Some(ArgView::Bool(false))
    &&& arg_named(args, "recalculate"@) == Some(ArgView::Bool(false))
    &&& arg_named(args, "force"@) == Some(ArgView::Bool(false))
}

proof fn lemma_usage_names_are_distinct()
    ensures
        "last"@ != "character"@,
        "last"@ != "provider"@,
        "last"@ != "api_key"@,
        "last"@ != "model"@,
        "last"@ != "call_type"@,
        "last"@ != "by_call_type"@,
        "last"@ != "by_kind"@,
        "last"@ != "by_api_key"@,
        "last"@ != "anomalies"@,
        "last"@ != "export_csv"@,
        "last"@ != "export_tsv"@,
        "last"@ != "refresh_pricing"@,
        "last"@ != "recalculate"@,
        "last"@ != "force"@,
        "character"@ != "provider"@,
        "character"@ != "api_key"@,
        "character"@ != "model"@,
        "character"@ != "call_type"@,
        "character"@ != "by_call_type"@,
        "character"@ != "by_kind"@,
        "character"@ != "by_api_key"@,
        "character"@ != "anomalies"@,
        "character"@ != "export_csv"@,
        "character"@ != "export_tsv"@,
        "character"@ != "refresh_pricing"@,
        "character"@ != "recalculate"@,
        "character"@ != "force"@,
        "provider"@ != "api_key"@,
        "provider"@ != "model"@,
        "provider"@ != "call_type"@,
        "provider"@ != "by_call_type"@,
        "provider"@ != "by_kind"@,
        "provider"@ != "by_api_key"@,
        "provider"@ != "anomalies"@,
        "provider"@ != "export_csv"@,
        "provider"@ != "export_tsv"@,
        "provider"@ != "refresh_pricing"@,
        "provider"@ != "recalculate"@,
        "provider"@ != "force"@,
        "api_key"@ != "model"@,
        "api_key"@ != "call_type"@,
        "api_key"@ != "by_call_type"@,
        "api_key"@ != "by_kind"@,
        "api_key"@ != "by_api_key"@,
        "api_key"@ != "anomalies"@,
        "api_key"@ != "export_csv"@,
        "api_key"@ != "export_tsv"@,
        "api_key"@ != "refresh_pricing"@,
        "api_key"@ != "recalculate"@,
        "api_key"@ != "force"@,
        "model"@ != "call_type"@,
        "model"@ != "by_call_type"@,
        "model"@ != "by_kind"@,
        "model"@ != "by_api_key"@,
        "model"@ != "anomalies"@,
        "model"@ != "export_csv"@,
        "model"@ != "export_tsv"@,
        "model"@ != "refresh_pricing"@,
        "model"@ != "recalculate"@,
        "model"@ != "force"@,
        "call_type"@ != "by_call_type"@,
        "call_type"@ != "by_kind"@,
        "call_type"@ != "by_api_key"@,
        "call_type"@ != "anomalies"@,
        "call_type"@ != "export_csv"@,
        "call_type"@ != "export_tsv"@,
        "call_type"@ != "refresh_pricing"@,
        "call_type"@ != "recalculate"@,
        "call_type"@ != "force"@,
        "by_call_type"@ != "by_kind"@,
        "by_call_type"@ != "by_api_key"@,
        "by_call_type"@ != "anomalies"@,
        "by_call_type"@ != "export_csv"@,
        "by_call_type"@ != "export_tsv"@,
        "by_call_type"@ != "refresh_pricing"@,
        "by_call_type"@ != "recalculate"@,
        "by_call_type"@ != "force"@,
        "by_kind"@ != "by_api_key"@,
        "by_kind"@ != "anomalies"@,
        "by_kind"@ != "export_csv"@,
        "by_kind"@ != "export_tsv"@,
        "by_kind"@ != "refresh_pricing"@,
        "by_kind"@ != "recalculate"@,
        "by_kind"@ != "force"@,
        "by_api_key"@ != "anomalies"@,
        "by_api_key"@ != "export_csv"@,
        "by_api_key"@ != "export_tsv"@,
        "by_api_key"@ != "refresh_pricing"@,
        "by_api_key"@ != "recalculate"@,
        "by_api_key"@ != "force"@,
        "anomalies"@ != "export_csv"@,
        "anomalies"@ != "export_tsv"@,
        "anomalies"@ != "refresh_pricing"@,
        "anomalies"@ != "recalculate"@,
        "anomalies"@ != "force"@,
        "export_csv"@ != "export_tsv"@,
        "export_csv"@ != "refresh_pricing"@,
        "export_csv"@ != "recalculate"@,
        "export_csv"@ != "force"@,
        "export_tsv"@ != "refresh_pricing"@,
        "export_tsv"@ != "recalculate"@,
        "export_tsv"@ != "force"@,
        "refresh_pricing"@ != "recalculate"@,
        "refresh_pricing"@ != "force"@,
        "recalculate"@ != "force"@,
{
    reveal_strlit("last");
    assert("last"@.len() == 4);
    reveal_strlit("character");
    assert("character"@.len() == 9);
    reveal_strlit("provider");
    assert("provider"@.len() == 8);
    reveal_strlit("api_key");
    assert("api_key"@.len() == 7);
    reveal_strlit("model");
    assert("model"@.len() == 5);
    reveal_strlit("call_type");
    assert("call_type"@.len() == 9);
    reveal_strlit("by_call_type");
    assert("by_call_type"@.len() == 12);
    reveal_strlit("by_kind");
    assert("by_kind"@.len() == 7);
    reveal_strlit("by_api_key");
    assert("by_api_key"@.len() == 10);
    reveal_strlit("anomalies");
    assert("anomalies"@.len() == 9);
    reveal_strlit("export_csv");
    assert("export_csv"@.len() == 10);
    reveal_strlit("export_tsv");
    assert("export_tsv"@.len() == 10);
    reveal_strlit("refresh_pricing");
    assert("refresh_pricing"@.len() == 15);
    reveal_strlit("recalculate");
    assert("recalculate"@.len() == 11);
    reveal_strlit("force");
    assert("force"@.len() == 5);
    assert("character"@[1] != "call_type"@[1]);
    assert("character"@[0] != "anomalies"@[0]);
    assert("api_key"@[0] != "by_kind"@[0]);
    assert("model"@[0] != "force"@[0]);
    assert("call_type"@[0] != "anomalies"@[0]);
    assert("by_api_key"@[0] != "export_csv"@[0]);
    assert("by_api_key"@[0] != "export_tsv"@[0]);
    assert("export_csv"@[7] != "export_tsv"@[7]);
}

/// Every argument of the `usage` command carries the parameter of the same
/// name: the period, the provider, API key, character, model and call-type
/// filters, and the groupings by call type, by kind and by API key, with all
/// exports and refreshes off.
pub proof fn usage_arguments_carry_their_parameters(p: UsageParams)
    ensures
        carries_usage_parameters(usage_args(p), p),
{
    lemma_usage_names_are_distinct();
    reveal_with_fuel(arg_named, 16);
}

/// The arguments `usage` sends: the filters and groupings asked for, with
/// every export and refresh switched off.
pub open spec fn usage_args(p: UsageParams) -> Seq<(Seq<char>, ArgView)> {
    seq![
        ("last"@, ArgView::Text(p.last@)),
        ("character"@, optional_text(p.character)),
        ("provider"@, optional_text(p.provider)),
        ("api_key"@, optional_text(p.api_key)),
        ("model"@, optional_text(p.model)),
        ("call_type"@, optional_text(p.call_type)),
        ("by_call_type"@, ArgView::Bool(p.by_call_type)),
        ("by_kind"@, ArgView::Bool(p.by_kind)),
        ("by_api_key"@, ArgView::Bool(p.by_api_key)),
        ("anomalies"@, ArgView::Bool(p.anomalies)),
        ("export_csv"@, ArgView::Bool(false)),
        ("export_tsv"@, ArgView::Bool(false)),
        ("refresh_pricing"@, ArgView::Bool(false)),
        ("recalculate"@, ArgView::Bool(false)),
        ("force"@, ArgView::Bool(false)),
    ]
}

impl UsageParams {
    /// The daemon command `usage` sends.
    pub fn into_command(self) -> (c: ToolCommand)
        ensures
            c@ == command_view("usage"@, "usage"@, usage_args(self)),
            carries_usage_parameters(c@.args, self),
    {
        let ghost p = self;
        let mut args: Vec<(String, ArgValue)> = Vec::new();
        args.push(named("last", ArgValue::Text(self.last)));
        args.push(named("character", optional_arg(self.character)));
        args.push(named("provider", optional_arg(self.provider)));
        args.push(named("api_key", optional_arg(self.api_key)));
        args.push(named("model", optional_arg(self.model)));
        args.push(named("call_type", optional_arg(self.call_type)));
        args.push(named("by_call_type", ArgValue::Bool(self.by_call_type)));
        args.push(named("by_kind", ArgValue::Bool(self.by_kind)));
        args.push(named("by_api_key", ArgValue::Bool(self.by_api_key)));
        args.push(named("anomalies", ArgValue::Bool(self.anomalies)));
        args.push(named("export_csv", ArgValue::Bool(false)));
        args.push(named("export_tsv", ArgValue::Bool(false)));
        args.push(named("refresh_pricing", ArgValue::Bool(false)));
        args.push(named("recalculate", ArgValue::Bool(false)));
        args.push(named("force", ArgValue::Bool(false)));
        let c = tool_command("usage", "usage", args);
        assert(c@.args =~= usage_args(p));
        proof {
            usage_arguments_carry_their_parameters(p);
        }
        c
    }
}

/// The daemon command a `send` with `system` set issues: the text is
/// injected as a system instruction.
pub fn inject_system_command(text: String) -> (c: ToolCommand)
    ensures
        c@ == command_view("send"@, "inject_system"@, seq![("text"@, ArgView::Text(text@))]),
{
    let ghost t = text@;
    let mut args: Vec<(String, ArgValue)> = Vec::new();
    args.push(named("text", ArgValue::Text(text)));
    let c = tool_command("send", "inject_system", args);
    assert(c@.args =~= seq![("text"@, ArgView::Text(t))]);
    c
}

/// Whether a `send` carries sampling overrides: exactly when a temperature,
/// a top-p value or a thinking budget was given.
pub fn wants_overrides(temperature_given: bool, top_p_given: bool, thinking: Option<u32>) -> (with: bool)
    ensures
        with == (temperature_given || top_p_given || thinking is Some),
{
    temperature_given || top_p_given || thinking.is_some()
}

/// How a `send` proceeds.
#[derive(Debug)]
pub enum SendPlan {
    /// Refused by the access rules, before anything is sent.
    Refuse(String),
    /// Inject the text as a system instruction with this command.
    InjectSystem(ToolCommand),
    /// Send the text as a user message and collect the streamed response.
    Stream(String),
}

/// Decides how a `send` of `text` proceeds in `ctx`: the access rules for
/// "send" are applied first, then `system` chooses between injecting a system
/// instruction and a streamed user message.
pub fn plan_send(text: String, system: bool, ctx: &GateContext) -> (plan: SendPlan)
    ensures
        decision_for("send"@, *ctx) matches Some(m) ==> (plan matches SendPlan::Refuse(msg)
            && msg@ == m),
        decision_for("send"@, *ctx) is None && system ==> (plan matches SendPlan::InjectSystem(c)
            && c@ == command_view("send"@, "inject_system"@, seq![("text"@, ArgView::Text(text@))])),
        decision_for("send"@, *ctx) is None && !system ==> plan == SendPlan::Stream(text),
{
    match check("send", ctx) {
        GateDecision::Refuse(msg) => SendPlan::Refuse(msg),
        GateDecision::Allow => {
            if system {
                SendPlan::InjectSystem(inject_system_command(text))
            } else {
                SendPlan::Stream(text)
            }
        },
    }
}

} // verus!
