//! How the bridge reaches a daemon: an explicit address wins, the main
//! profile is found by discovery alone, and a test profile that has no live
//! daemon gets one spawned, which is then polled for until it registers.
//!
//! Each function here decides one step; the caller performs the lookups,
//! connections, spawns and sleeps and reports their outcome back.
use vstd::prelude::*;

use crate::profile::{ProfileKind, MCP_INSTANCE_ID};

verus! {

/// Why a daemon lookup in the instance registry found nothing.
#[derive(Debug, Clone, Copy, PartialEq, Eq, Structural)]
pub enum DiscoveryKind {
    /// The registry file does not exist.
    RegistryMissing,
    /// The registry exists but holds no live entry.
    RegistryEmpty,
    /// Live entries exist, but none matches the requested instance.
    NoMatch,
    /// The registry is unreadable or not valid JSON.
    RegistryCorrupt,
    /// Another I/O error while reading the registry.
    Io,
}

/// Outcome of one daemon lookup.
#[derive(Debug, Clone, PartialEq, Eq)]
pub enum Discovery {
    /// A live daemon listens at this address.
    Found(String),
    /// The registry yielded no daemon, for this reason.
    Miss(DiscoveryKind),
    /// The lookup failed in some other way.
    Failed,
}

/// First step of attaching to a daemon.
#[derive(Debug, Clone, PartialEq, Eq)]
pub enum AttachStep {
    /// Connect to this address straight away.
    Connect(String),
    /// Look a daemon up: any registered one (`None`) or this instance.
    Discover(Option<String>),
}

/// What to do once a lookup has answered.
#[derive(Debug, Clone, PartialEq, Eq)]
pub enum AfterDiscovery {
    /// Connect to the daemon that was found.
    Connect(String),
    /// Spawn the bridge's own test daemon and wait for it to register.
    SpawnTestDaemon,
    /// Give up and report the lookup's error.
    Fail,
}

/// One step of waiting for a spawned daemon to register.
#[derive(Debug, Clone, PartialEq, Eq)]
pub enum PollStep {
    /// The daemon registered at this address: connect.
    Connect(String),
    /// The deadline passed without a registration.
    GiveUp,
    /// Sleep this many milliseconds, then look again.
    RetryAfter(u64),
}

/// Failures of the attach sequence that the bridge itself detects.
#[derive(Debug, Clone, Copy, PartialEq, Eq, Structural)]
pub enum AttachError {
    /// The spawned daemon did not register in time.
    RegistrationTimeout,
    /// No daemon binary could be located.
    DaemonNotFound,
}

/// How long a spawned daemon is given to register, in milliseconds.
pub const REGISTRATION_TIMEOUT_MS: u64 = 5000;

/// Pause between two lookups while waiting for registration, in milliseconds.
pub const POLL_INTERVAL_MS: u64 = 100;

/// Lookup misses that justify spawning a test daemon. A corrupt registry or
/// an I/O error means the environment is broken, not that a daemon is merely
/// missing.
pub open spec fn spawnable_miss(kind: DiscoveryKind) -> bool {
    ||| kind == DiscoveryKind::RegistryMissing
    ||| kind == DiscoveryKind::RegistryEmpty
    ||| kind == DiscoveryKind::NoMatch
}

/// The step after a lookup: the main profile never spawns a daemon.
pub open spec fn after_discovery_of(kind: ProfileKind, found: Discovery) -> AfterDiscovery {
    match found {
        Discovery::Found(addr) => AfterDiscovery::Connect(addr),
        Discovery::Miss(miss) => if kind != ProfileKind::Main && spawnable_miss(miss) {
            AfterDiscovery::SpawnTestDaemon
        } else {
            AfterDiscovery::Fail
        },
        Discovery::Failed => AfterDiscovery::Fail,
    }
}

/// The step while waiting for a spawned daemon, `elapsed_ms` after spawning.
pub open spec fn poll_step_of(registered: Option<String>, elapsed_ms: u64) -> PollStep {
    if registered is Some {
        PollStep::Connect(registered->0)
    } else if elapsed_ms >= REGISTRATION_TIMEOUT_MS {
        PollStep::GiveUp
    } else {
        PollStep::RetryAfter(POLL_INTERVAL_MS)
    }
}

/// Whether a lookup miss justifies spawning the bridge's own test daemon.
pub fn is_spawnable_discovery_miss(kind: DiscoveryKind) -> (spawn: bool)
    ensures
        spawn == spawnable_miss(kind),
{
    match kind {
        DiscoveryKind::RegistryMissing | DiscoveryKind::RegistryEmpty | DiscoveryKind::NoMatch => true,
        DiscoveryKind::RegistryCorrupt | DiscoveryKind::Io => false,
    }
}

/// The first step of attaching to a daemon for the given profile; an
/// explicit address always wins and skips discovery and spawning.
pub fn first_attach_step(kind: ProfileKind, daemon_addr: &Option<String>) -> (step: AttachStep)
    ensures
        daemon_addr is Some ==> step == AttachStep::Connect(daemon_addr->0),
        daemon_addr is None && kind == ProfileKind::Main ==> step == AttachStep::Discover(None),
        daemon_addr is None && kind != ProfileKind::Main ==> (step matches AttachStep::Discover(
            Some(id),
        ) && id@ == MCP_INSTANCE_ID@),
{
    match daemon_addr {
        Some(addr) => AttachStep::Connect(addr.clone()),
        None => match kind {
            ProfileKind::Main => AttachStep::Discover(None),
            _ => AttachStep::Discover(Some(MCP_INSTANCE_ID.to_owned())),
        },
    }
}

/// The step that follows a daemon lookup.
pub fn after_discovery(kind: ProfileKind, found: Discovery) -> (next: AfterDiscovery)
    ensures
        next == after_discovery_of(kind, found),
{
    match found {
        Discovery::Found(addr) => AfterDiscovery::Connect(addr),
        Discovery::Miss(miss) => {
            let on_main = match kind {
                ProfileKind::Main => true,
                _ => false,
            };
            if !on_main && is_spawnable_discovery_miss(miss) {
                AfterDiscovery::SpawnTestDaemon
            } else {
                AfterDiscovery::Fail
            }
        },
        Discovery::Failed => AfterDiscovery::Fail,
    }
}

/// The step while waiting for a spawned daemon to register: connect as soon
/// as it is registered, give up once the timeout has elapsed, else wait.
pub fn registration_poll_step(registered: Option<String>, elapsed_ms: u64) -> (step: PollStep)
    ensures
        step == poll_step_of(registered, elapsed_ms),
{
    match registered {
        Some(addr) => PollStep::Connect(addr),
        None => if elapsed_ms >= REGISTRATION_TIMEOUT_MS {
            PollStep::GiveUp
        } else {
            PollStep::RetryAfter(POLL_INTERVAL_MS)
        },
    }
}

/// Arguments the test daemon is spawned with: register under the bridge's
/// instance id and let the daemon pick a free local port.
pub fn daemon_spawn_args() -> (args: Vec<String>)
    ensures
        args@.map_values(|a: String| a@) == seq![
            "--instance-id"@,
            MCP_INSTANCE_ID@,
            "--addr"@,
            "127.0.0.1:0"@,
        ],
{
    let mut args: Vec<String> = Vec::new();
    args.push("--instance-id".to_owned());
    args.push(MCP_INSTANCE_ID.to_owned());
    args.push("--addr".to_owned());
    args.push("127.0.0.1:0".to_owned());
    assert(args@.map_values(|a: String| a@) =~= seq![
        "--instance-id"@,
        MCP_INSTANCE_ID@,
        "--addr"@,
        "127.0.0.1:0"@,
    ]);
    args
}

/// Where the daemon binary is taken from: the explicit path when one is
/// given and exists, else the one found on `PATH`.
pub open spec fn daemon_path_of(explicit: Option<String>, explicit_exists: bool, on_path: Option<String>) -> Option<String> {
    if explicit is Some && explicit_exists {
        explicit
    } else {
        on_path
    }
}

/// Chooses the daemon binary: `explicit` (from `SHORE_DAEMON_BIN`) when it is
/// set and `explicit_exists`, else `on_path` (a `PATH` lookup).
pub fn choose_daemon_path(explicit: Option<String>, explicit_exists: bool, on_path: Option<String>) -> (path: Result<String, AttachError>)
    ensures
        path matches Ok(p) ==> daemon_path_of(explicit, explicit_exists, on_path) == Some(p),
        path is Err <==> daemon_path_of(explicit, explicit_exists, on_path) is None,
        path matches Err(e) ==> e == AttachError::DaemonNotFound,
        explicit is Some && explicit_exists ==> path == Ok::<String, AttachError>(explicit->0),
        !(explicit is Some && explicit_exists) && on_path is Some ==> path == Ok::<
            String,
            AttachError,
        >(on_path->0),
        path is Err <==> (!(explicit is Some && explicit_exists) && on_path is None),
{
    if let Some(p) = explicit {
        if explicit_exists {
            return Ok(p);
        }
    }
    match on_path {
        Some(p) => Ok(p),
        None => Err(AttachError::DaemonNotFound),
    }
}

impl AttachError {
    /// The message the error is reported with.
    pub fn message(&self) -> (text: String)
        ensures
            text@ == match self {
                AttachError::RegistrationTimeout => "spawned shore-daemon did not register instance 'shore-mcp-test' within 5s"@,
                AttachError::DaemonNotFound => "could not find shore-daemon binary. Set SHORE_DAEMON_BIN to an explicit path, or put shore-daemon on PATH (e.g. after `cargo build -p shore-daemon`)."@,
            },
    {
        match self {
            AttachError::RegistrationTimeout => "spawned shore-daemon did not register instance 'shore-mcp-test' within 5s".to_owned(),
            AttachError::DaemonNotFound => "could not find shore-daemon binary. Set SHORE_DAEMON_BIN to an explicit path, or put shore-daemon on PATH (e.g. after `cargo build -p shore-daemon`).".to_owned(),
        }
    }
}

/// Attaching to the main profile never spawns a daemon, and a daemon that a
/// lookup found is always the one connected to.
pub proof fn main_profile_never_spawns(found: Discovery)
    ensures
        after_discovery_of(ProfileKind::Main, found) != AfterDiscovery::SpawnTestDaemon,
        found matches Discovery::Found(addr) ==> after_discovery_of(ProfileKind::Main, found)
            == AfterDiscovery::Connect(addr),
{
}

/// On a test profile a daemon is spawned exactly after a benign miss; a
/// broken registry or a failed lookup is reported instead.
pub proof fn test_profile_spawns_only_on_benign_miss(kind: ProfileKind, found: Discovery)
    requires
        kind != ProfileKind::Main,
    ensures
        after_discovery_of(kind, found) == AfterDiscovery::SpawnTestDaemon <==> (found matches Discovery::Miss(
            miss,
        ) && spawnable_miss(miss)),
{
}

/// Waiting for a spawned daemon connects as soon as it has registered,
/// gives up only once the timeout has elapsed without a registration, and
/// otherwise waits one poll interval.
pub proof fn polling_gives_up_only_after_timeout(registered: Option<String>, elapsed_ms: u64)
    ensures
        registered is Some ==> poll_step_of(registered, elapsed_ms) == PollStep::Connect(
            registered->0,
        ),
        poll_step_of(registered, elapsed_ms) == PollStep::GiveUp <==> (registered is None
            && elapsed_ms >= REGISTRATION_TIMEOUT_MS),
        poll_step_of(registered, elapsed_ms) is RetryAfter ==> poll_step_of(registered, elapsed_ms)
            == PollStep::RetryAfter(POLL_INTERVAL_MS),
{
}

/// An explicit daemon binary that exists is always the one used, whatever
/// `PATH` holds; the `PATH` lookup is used only when there is no such
/// explicit binary; and no binary is found only when neither is available.
pub proof fn existing_explicit_binary_wins(
    explicit: Option<String>,
    explicit_exists: bool,
    on_path: Option<String>,
)
    ensures
        explicit is Some && explicit_exists ==> daemon_path_of(explicit, explicit_exists, on_path)
            == explicit,
        !(explicit is Some && explicit_exists) ==> daemon_path_of(
            explicit,
            explicit_exists,
            on_path,
        ) == on_path,
        daemon_path_of(explicit, explicit_exists, on_path) is None <==> (!(explicit is Some
            && explicit_exists) && on_path is None),
{
}

/// A missing or empty registry, or no matching entry, leads a test profile to
/// spawn its own daemon; a corrupt registry or an I/O error never does.
pub proof fn only_benign_misses_are_spawnable(kind: DiscoveryKind)
    ensures
        spawnable_miss(kind) <==> (kind == DiscoveryKind::RegistryMissing || kind
            == DiscoveryKind::RegistryEmpty || kind == DiscoveryKind::NoMatch),
        !spawnable_miss(DiscoveryKind::RegistryCorrupt),
        !spawnable_miss(DiscoveryKind::Io),
{
}

} // verus!
