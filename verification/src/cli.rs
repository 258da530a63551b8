//! The command-line options of the bridge, as plain values.
use vstd::prelude::*;

verus! {

/// Options the bridge is started with.
///
/// As given on the command line, `ephemeral` is never combined with
/// `attach_main`, and `allow_main_writes` only comes together with
/// `attach_main`. Where `attach_main` is set, it decides the profile
/// whatever `ephemeral` holds, and `allow_main_writes` matters only then.
#[derive(Debug, Clone)]
pub struct Cli {
    /// Attach to the user's main daemon profile instead of the isolated test
    /// profile. Mutating tools are then refused unless `allow_main_writes`.
    pub attach_main: bool,
    /// Use a fresh temporary profile, torn down on exit, instead of the
    /// persistent test profile.
    pub ephemeral: bool,
    /// Permit mutating tools against the main profile.
    pub allow_main_writes: bool,
    /// Connect to this daemon address instead of discovering one.
    pub daemon_addr: Option<String>,
}

} // verus!
