//! Which tool calls may run against which daemon profile.
//!
//! Read-only tools always run. Tools that mutate daemon state run on an
//! isolated test profile, and on the user's main profile only after an
//! explicit opt-in. Names that are not tools of the bridge are refused.
use vstd::prelude::*;

use crate::text::str_eq;

verus! {

/// What the access rules know about the session a tool call belongs to.
#[derive(Debug, Clone, Copy)]
pub struct GateContext {
    /// `true` on an isolated test profile, `false` on the main profile.
    pub profile_is_test: bool,
    /// `true` when writes against the main profile were explicitly allowed.
    pub allow_main_writes: bool,
}

/// Outcome of an access check: run the tool, or refuse it with a message.
#[derive(Debug, Clone, PartialEq, Eq)]
pub enum GateDecision {
    Allow,
    Refuse(String),
}

impl View for GateDecision {
    /// `None` for an allowed call, `Some(message)` for a refused one.
    type V = Option<Seq<char>>;

    open spec fn view(&self) -> Option<Seq<char>> {
        match self {
            GateDecision::Allow => None,
            GateDecision::Refuse(message) => Some(message@),
        }
    }
}

/// How a tool name is classified.
#[derive(Debug, Clone, Copy, PartialEq, Eq, Structural)]
pub enum ToolClass {
    ReadOnly,
    Mutating,
    Unknown,
}

/// Tools that only read daemon state.
pub open spec fn is_read_only_tool(name: Seq<char>) -> bool {
    ||| name == "status"@
    ||| name == "status_diagnostics"@
    ||| name == "log_tail"@
    ||| name == "log_show"@
    ||| name == "log_heartbeat"@
    ||| name == "log_follow"@
    ||| name == "usage"@
    ||| name == "config_get"@
    ||| name == "config_check"@
    ||| name == "config_path"@
    ||| name == "character_list"@
    ||| name == "character_info"@
    ||| name == "model_list"@
    ||| name == "model_info"@
    ||| name == "memory_query"@
    ||| name == "memory_changelog"@
}

/// Tools that change daemon state.
pub open spec fn is_mutating_tool(name: Seq<char>) -> bool {
    ||| name == "send"@
    ||| name == "regen"@
    ||| name == "log_delete"@
    ||| name == "log_edit"@
    ||| name == "config_set"@
    ||| name == "config_reset"@
    ||| name == "character_switch"@
    ||| name == "character_new"@
    ||| name == "model_switch"@
    ||| name == "model_reset"@
    ||| name == "memory_compact"@
    ||| name == "usage_refresh_pricing"@
    ||| name == "usage_recalculate"@
    ||| name == "debug_tick_now"@
    ||| name == "debug_status_dormant"@
    ||| name == "debug_status_active"@
}

/// The class of a tool name; the read-only list is consulted first.
pub open spec fn tool_class(name: Seq<char>) -> ToolClass {
    if is_read_only_tool(name) {
        ToolClass::ReadOnly
    } else if is_mutating_tool(name) {
        ToolClass::Mutating
    } else {
        ToolClass::Unknown
    }
}

/// Whether the session may run mutating tools.
pub open spec fn writes_permitted(ctx: GateContext) -> bool {
    ctx.profile_is_test || ctx.allow_main_writes
}

/// The message that refuses a mutating tool on the main profile.
pub open spec fn mutation_refusal(tool: Seq<char>) -> Seq<char> {
    "refused: tool `"@ + tool
        + "` mutates state and cannot run against the main profile. Re-launch without --attach-main, or pass --allow-main-writes to opt in."@
}

/// The message that refuses a name that is no tool of the bridge.
pub open spec fn unknown_refusal(tool: Seq<char>) -> Seq<char> {
    "refused: unknown tool `"@ + tool + "`"@
}

/// The decision on `tool` in `ctx`: `None` allows, `Some` refuses.
pub open spec fn decision_for(tool: Seq<char>, ctx: GateContext) -> Option<Seq<char>> {
    match tool_class(tool) {
        ToolClass::ReadOnly => None,
        ToolClass::Mutating => if writes_permitted(ctx) {
            None
        } else {
            Some(mutation_refusal(tool))
        },
        ToolClass::Unknown => Some(unknown_refusal(tool)),
    }
}

fn is_read_only_name(tool: &str) -> (found: bool)
    ensures
        found == is_read_only_tool(tool@),
{
    str_eq(tool, "status") || str_eq(tool, "status_diagnostics") || str_eq(tool, "log_tail")
        || str_eq(tool, "log_show") || str_eq(tool, "log_heartbeat") || str_eq(tool, "log_follow")
        || str_eq(tool, "usage") || str_eq(tool, "config_get") || str_eq(tool, "config_check")
        || str_eq(tool, "config_path") || str_eq(tool, "character_list") || str_eq(
        tool,
        "character_info",
    ) || str_eq(tool, "model_list") || str_eq(tool, "model_info") || str_eq(tool, "memory_query")
        || str_eq(tool, "memory_changelog")
}

fn is_mutating_name(tool: &str) -> (found: bool)
    ensures
        found == is_mutating_tool(tool@),
{
    str_eq(tool, "send") || str_eq(tool, "regen") || str_eq(tool, "log_delete") || str_eq(
        tool,
        "log_edit",
    ) || str_eq(tool, "config_set") || str_eq(tool, "config_reset") || str_eq(
        tool,
        "character_switch",
    ) || str_eq(tool, "character_new") || str_eq(tool, "model_switch") || str_eq(
        tool,
        "model_reset",
    ) || str_eq(tool, "memory_compact") || str_eq(tool, "usage_refresh_pricing") || str_eq(
        tool,
        "usage_recalculate",
    ) || str_eq(tool, "debug_tick_now") || str_eq(tool, "debug_status_dormant") || str_eq(
        tool,
        "debug_status_active",
    )
}

/// Classifies a tool name as read-only, mutating or unknown.
pub fn classify(tool: &str) -> (class: ToolClass)
    ensures
        class == tool_class(tool@),
{
    if is_read_only_name(tool) {
        ToolClass::ReadOnly
    } else if is_mutating_name(tool) {
        ToolClass::Mutating
    } else {
        ToolClass::Unknown
    }
}

/// Decides whether `tool` may run in `ctx`.
pub fn check(tool: &str, ctx: &GateContext) -> (decision: GateDecision)
    ensures
        decision@ == decision_for(tool@, *ctx),
{
    match classify(tool) {
        ToolClass::ReadOnly => GateDecision::Allow,
        ToolClass::Mutating => {
            if ctx.profile_is_test || ctx.allow_main_writes {
                GateDecision::Allow
            } else {
                let message = "refused: tool `".to_owned().concat(tool).concat(
                    "` mutates state and cannot run against the main profile. Re-launch without --attach-main, or pass --allow-main-writes to opt in.",
                );
                GateDecision::Refuse(message)
            }
        },
        ToolClass::Unknown => {
            let message = "refused: unknown tool `".to_owned().concat(tool).concat("`");
            GateDecision::Refuse(message)
        },
    }
}

/// A read-only tool is allowed in every session.
pub proof fn read_only_tools_always_allowed(tool: Seq<char>, ctx: GateContext)
    requires
        is_read_only_tool(tool),
    ensures
        decision_for(tool, ctx) == None::<Seq<char>>,
{
}

/// A mutating tool is allowed exactly when the session permits writes, and
/// is otherwise refused with the message that names it.
pub proof fn mutating_tools_follow_write_permission(tool: Seq<char>, ctx: GateContext)
    requires
        tool_class(tool) == ToolClass::Mutating,
    ensures
        decision_for(tool, ctx) is None <==> writes_permitted(ctx),
        !writes_permitted(ctx) ==> decision_for(tool, ctx) == Some(mutation_refusal(tool)),
{
}

/// A name that is no tool of the bridge is refused in every session, and
/// the refusal carries the word "unknown".
pub proof fn unknown_tools_always_refused(tool: Seq<char>, ctx: GateContext)
    requires
        tool_class(tool) == ToolClass::Unknown,
    ensures
        decision_for(tool, ctx) == Some(unknown_refusal(tool)),
        unknown_refusal(tool).subrange(9, 16) == "unknown"@,
{
    reveal_strlit("refused: unknown tool `");
    reveal_strlit("unknown");
    assert(unknown_refusal(tool).subrange(9, 16) =~= "unknown"@);
}

/// Granting more permission never turns an allowed call into a refused one.
pub proof fn more_permission_keeps_calls_allowed(
    tool: Seq<char>,
    ctx: GateContext,
    wider: GateContext,
)
    requires
        decision_for(tool, ctx) is None,
        writes_permitted(ctx) ==> writes_permitted(wider),
    ensures
        decision_for(tool, wider) is None,
{
}

/// On a test profile every tool of the bridge is allowed and nothing else is;
/// the write opt-in changes nothing there.
pub proof fn test_profile_allows_exactly_known_tools(tool: Seq<char>, ctx: GateContext)
    requires
        ctx.profile_is_test,
    ensures
        decision_for(tool, ctx) is None <==> tool_class(tool) != ToolClass::Unknown,
        decision_for(tool, ctx) == decision_for(tool, GateContext { allow_main_writes: !ctx.allow_main_writes, ..ctx }),
{
}

/// Every refusal begins with "refused: " and names the refused tool.
pub proof fn refusals_name_the_tool(tool: Seq<char>, ctx: GateContext)
    ensures
        decision_for(tool, ctx) matches Some(message) ==> {
            &&& message.subrange(0, 9) == "refused: "@
            &&& (message == mutation_refusal(tool) ==> message.subrange(15, 15 + tool.len() as int) == tool)
            &&& (message == unknown_refusal(tool) ==> message.subrange(23, 23 + tool.len() as int) == tool)
        },
{
    reveal_strlit("refused: ");
    reveal_strlit("refused: tool `");
    reveal_strlit("refused: unknown tool `");
    let m = mutation_refusal(tool);
    let u = unknown_refusal(tool);
    assert(m.subrange(0, 9) =~= "refused: "@);
    assert(u.subrange(0, 9) =~= "refused: "@);
    assert(m.subrange(15, 15 + tool.len() as int) =~= tool);
    assert(u.subrange(23, 23 + tool.len() as int) =~= tool);
}

/// The tools of the bridge by name: sixteen that only read daemon state and
/// sixteen that change it.
pub proof fn tool_classes_by_name()
    ensures
        tool_class("status"@) == ToolClass::ReadOnly,
        tool_class("status_diagnostics"@) == ToolClass::ReadOnly,
        tool_class("log_tail"@) == ToolClass::ReadOnly,
        tool_class("log_show"@) == ToolClass::ReadOnly,
        tool_class("log_heartbeat"@) == ToolClass::ReadOnly,
        tool_class("log_follow"@) == ToolClass::ReadOnly,
        tool_class("usage"@) == ToolClass::ReadOnly,
        tool_class("config_get"@) == ToolClass::ReadOnly,
        tool_class("config_check"@) == ToolClass::ReadOnly,
        tool_class("config_path"@) == ToolClass::ReadOnly,
        tool_class("character_list"@) == ToolClass::ReadOnly,
        tool_class("character_info"@) == ToolClass::ReadOnly,
        tool_class("model_list"@) == ToolClass::ReadOnly,
        tool_class("model_info"@) == ToolClass::ReadOnly,
        tool_class("memory_query"@) == ToolClass::ReadOnly,
        tool_class("memory_changelog"@) == ToolClass::ReadOnly,
        tool_class("send"@) == ToolClass::Mutating,
        tool_class("regen"@) == ToolClass::Mutating,
        tool_class("log_delete"@) == ToolClass::Mutating,
        tool_class("log_edit"@) == ToolClass::Mutating,
        tool_class("config_set"@) == ToolClass::Mutating,
        tool_class("config_reset"@) == ToolClass::Mutating,
        tool_class("character_switch"@) == ToolClass::Mutating,
        tool_class("character_new"@) == ToolClass::Mutating,
        tool_class("model_switch"@) == ToolClass::Mutating,
        tool_class("model_reset"@) == ToolClass::Mutating,
        tool_class("memory_compact"@) == ToolClass::Mutating,
        tool_class("usage_refresh_pricing"@) == ToolClass::Mutating,
        tool_class("usage_recalculate"@) == ToolClass::Mutating,
        tool_class("debug_tick_now"@) == ToolClass::Mutating,
        tool_class("debug_status_dormant"@) == ToolClass::Mutating,
        tool_class("debug_status_active"@) == ToolClass::Mutating,
{
    reveal_strlit("status");
    assert("status"@.len() == 6);
    reveal_strlit("status_diagnostics");
    assert("status_diagnostics"@.len() == 18);
    reveal_strlit("log_tail");
    assert("log_tail"@.len() == 8);
    reveal_strlit("log_show");
    assert("log_show"@.len() == 8);
    reveal_strlit("log_heartbeat");
    assert("log_heartbeat"@.len() == 13);
    reveal_strlit("log_follow");
    assert("log_follow"@.len() == 10);
    reveal_strlit("usage");
    assert("usage"@.len() == 5);
    reveal_strlit("config_get");
    assert("config_get"@.len() == 10);
    reveal_strlit("config_check");
    assert("config_check"@.len() == 12);
    reveal_strlit("config_path");
    assert("config_path"@.len() == 11);
    reveal_strlit("character_list");
    assert("character_list"@.len() == 14);
    reveal_strlit("character_info");
    assert("character_info"@.len() == 14);
    reveal_strlit("model_list");
    assert("model_list"@.len() == 10);
    reveal_strlit("model_info");
    assert("model_info"@.len() == 10);
    reveal_strlit("memory_query");
    assert("memory_query"@.len() == 12);
    reveal_strlit("memory_changelog");
    assert("memory_changelog"@.len() == 16);
    reveal_strlit("send");
    assert("send"@.len() == 4);
    reveal_strlit("regen");
    assert("regen"@.len() == 5);
    reveal_strlit("log_delete");
    assert("log_delete"@.len() == 10);
    reveal_strlit("log_edit");
    assert("log_edit"@.len() == 8);
    reveal_strlit("config_set");
    assert("config_set"@.len() == 10);
    reveal_strlit("config_reset");
    assert("config_reset"@.len() == 12);
    reveal_strlit("character_switch");
    assert("character_switch"@.len() == 16);
    reveal_strlit("character_new");
    assert("character_new"@.len() == 13);
    reveal_strlit("model_switch");
    assert("model_switch"@.len() == 12);
    reveal_strlit("model_reset");
    assert("model_reset"@.len() == 11);
    reveal_strlit("memory_compact");
    assert("memory_compact"@.len() == 14);
    reveal_strlit("usage_refresh_pricing");
    assert("usage_refresh_pricing"@.len() == 21);
    reveal_strlit("usage_recalculate");
    assert("usage_recalculate"@.len() == 17);
    reveal_strlit("debug_tick_now");
    assert("debug_tick_now"@.len() == 14);
    reveal_strlit("debug_status_dormant");
    assert("debug_status_dormant"@.len() == 20);
    reveal_strlit("debug_status_active");
    assert("debug_status_active"@.len() == 19);
    assert("log_tail"@[4] != "log_show"@[4]);
    assert("log_tail"@[4] != "log_edit"@[4]);
    assert("log_show"@[4] != "log_edit"@[4]);
    assert("log_heartbeat"@[0] != "character_new"@[0]);
    assert("log_follow"@[0] != "config_get"@[0]);
    assert("log_follow"@[0] != "model_list"@[0]);
    assert("log_follow"@[0] != "model_info"@[0]);
    assert("log_follow"@[4] != "log_delete"@[4]);
    assert("log_follow"@[0] != "config_set"@[0]);
    assert("usage"@[0] != "regen"@[0]);
    assert("config_get"@[0] != "model_list"@[0]);
    assert("config_get"@[0] != "model_info"@[0]);
    assert("config_get"@[0] != "log_delete"@[0]);
    assert("config_get"@[7] != "config_set"@[7]);
    assert("config_check"@[0] != "memory_query"@[0]);
    assert("config_check"@[7] != "config_reset"@[7]);
    assert("config_check"@[0] != "model_switch"@[0]);
    assert("config_path"@[0] != "model_reset"@[0]);
    assert("character_list"@[10] != "character_info"@[10]);
    assert("character_list"@[0] != "memory_compact"@[0]);
    assert("character_list"@[0] != "debug_tick_now"@[0]);
    assert("character_info"@[0] != "memory_compact"@[0]);
    assert("character_info"@[0] != "debug_tick_now"@[0]);
    assert("model_list"@[6] != "model_info"@[6]);
    assert("model_list"@[0] != "log_delete"@[0]);
    assert("model_list"@[0] != "config_set"@[0]);
    assert("model_info"@[0] != "log_delete"@[0]);
    assert("model_info"@[0] != "config_set"@[0]);
    assert("memory_query"@[0] != "config_reset"@[0]);
    assert("memory_query"@[1] != "model_switch"@[1]);
    assert("memory_changelog"@[0] != "character_switch"@[0]);
    assert("log_delete"@[0] != "config_set"@[0]);
    assert("config_reset"@[0] != "model_switch"@[0]);
    assert("memory_compact"@[0] != "debug_tick_now"@[0]);
}

} // verus!
