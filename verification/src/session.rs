//! The access rules a serving session applies, derived from the options it was
//! started with and the profile it resolved to.
use vstd::prelude::*;

use crate::cli::Cli;
use crate::gating::{decision_for, mutation_refusal, tool_class, GateContext, ToolClass};
use crate::profile::{profile_kind_of, ProfileKind};

verus! {

/// The access context of a session whose profile is (or is not) a test profile.
pub fn gate_context(cli: &Cli, profile_is_test: bool) -> (ctx: GateContext)
    ensures
        ctx.profile_is_test == profile_is_test,
        ctx.allow_main_writes == cli.allow_main_writes,
{
    GateContext { profile_is_test, allow_main_writes: cli.allow_main_writes }
}

/// The access context of a session started with `cli`.
pub open spec fn session_context(cli: Cli) -> GateContext {
    GateContext {
        profile_is_test: profile_kind_of(cli) != ProfileKind::Main,
        allow_main_writes: cli.allow_main_writes,
    }
}

/// Attached to the main profile without the explicit opt-in, every mutating
/// tool is refused.
pub proof fn main_profile_refuses_mutation_without_opt_in(cli: Cli, tool: Seq<char>)
    requires
        cli.attach_main,
        !cli.allow_main_writes,
        tool_class(tool) == ToolClass::Mutating,
    ensures
        decision_for(tool, session_context(cli)) == Some(mutation_refusal(tool)),
{
}

/// Attached to the main profile with the opt-in, every tool of the bridge runs.
pub proof fn opt_in_unlocks_main_profile(cli: Cli, tool: Seq<char>)
    requires
        cli.attach_main,
        cli.allow_main_writes,
    ensures
        decision_for(tool, session_context(cli)) is None <==> tool_class(tool) != ToolClass::Unknown,
{
}

/// Without `--attach-main` the write opt-in changes no decision.
pub proof fn opt_in_is_inert_on_test_profiles(cli: Cli, tool: Seq<char>)
    requires
        !cli.attach_main,
    ensures
        decision_for(tool, session_context(cli)) == decision_for(
            tool,
            session_context(Cli { allow_main_writes: !cli.allow_main_writes, ..cli }),
        ),
{
}

} // verus!
