//! Launch orchestration for the backend process.
//!
//! A launch is a fixed sequence of outside steps — resolve the packaged
//! resources, test the preferred port, spawn the process, attach the relay
//! loops, run the readiness probe — with a decision after each. The driver
//! performs the steps; which step comes next, and what each observed outcome
//! means, is the state machine here. A missing entry file ends the launch at
//! once as "not applicable" (a development run against a live server); a
//! failed spawn is terminal for the session; a readiness timeout is logged
//! but does not fail the launch.

use vstd::prelude::*;
use vstd::string::StringExecFns;
use crate::ports;
use crate::ports::ListenEndpoint;
use crate::text;

verus! {

/// How a finished launch ended.
#[derive(Clone, Copy, PartialEq, Eq, Structural, Debug)]
pub enum LaunchOutcome {
    /// The entry file is absent: nothing to launch, and not an error.
    NotApplicable,
    /// The packaged resources directory could not be resolved.
    ResourceFailure,
    /// The operating system refused to create the process.
    SpawnFailure,
    /// The backend is running on `endpoint`; `ready` says whether the
    /// readiness probe connected before its deadline. A timeout is logged
    /// and the shell navigates anyway.
    Launched { endpoint: ListenEndpoint, ready: bool },
}

/// Where a launch stands; each non-final state calls for one outside step.
#[derive(Clone, Copy, PartialEq, Eq, Structural, Debug)]
pub enum LaunchState {
    /// Resolving the resources directory and looking for the entry file.
    ResolvingResources,
    /// Testing the preferred port for availability.
    AllocatingPort,
    /// Spawning the backend bound to this endpoint.
    Spawning { endpoint: ListenEndpoint },
    /// Attaching the two relay loops to the captured output streams.
    AttachingRelays { endpoint: ListenEndpoint },
    /// Polling the endpoint until it accepts a connection or the deadline
    /// passes.
    Probing { endpoint: ListenEndpoint },
    /// The launch has ended.
    Finished { outcome: LaunchOutcome },
}

/// What the driver observed while performing the current step.
#[derive(Clone, Copy, PartialEq, Eq, Structural, Debug)]
pub enum LaunchEvent {
    /// The resources directory resolved; `entry_present` says whether the
    /// entry file was found in it.
    ResourcesResolved { entry_present: bool },
    /// The resources directory could not be resolved.
    ResourcesUnavailable,
    /// The preferred port was test-bound and released.
    PortProbed { preferred_free: bool },
    /// The spawn succeeded; the driver holds the process handle.
    SpawnSucceeded,
    /// The spawn syscall failed.
    SpawnFailed,
    /// Both relay loops are attached to the captured streams.
    RelaysAttached,
    /// The readiness probe finished.
    ProbeFinished { ready: bool },
}

/// The outside step a state calls for.
#[derive(Clone, Copy, PartialEq, Eq, Structural, Debug)]
pub enum LaunchAction {
    /// Resolve the packaged resources directory and check for the entry
    /// file.
    ResolveResources,
    /// Briefly bind the preferred port to test availability, then release
    /// it.
    ProbePreferredPort,
    /// Create the data and cache directories, then spawn the runtime on the
    /// entry file: working directory the backend installation directory,
    /// standard input discarded, both output streams captured, environment
    /// as `backend_env`, and on Windows the creation flag that suppresses a
    /// visible console window.
    SpawnBackend { endpoint: ListenEndpoint },
    /// Start one relay loop per captured stream, each on its own thread.
    AttachRelays,
    /// Poll the endpoint until ready or deadline, off the event-dispatch
    /// thread.
    RunReadinessProbe { endpoint: ListenEndpoint },
    /// The launch is over; install the handle if one was obtained.
    Stop,
}

/// The full transition table. An event that does not belong to the current
/// state changes nothing.
pub open spec fn launch_transition(s: LaunchState, e: LaunchEvent) -> LaunchState {
    match (s, e) {
        (
            LaunchState::ResolvingResources,
            LaunchEvent::ResourcesResolved { entry_present },
        ) => if entry_present {
            LaunchState::AllocatingPort
        } else {
            LaunchState::Finished { outcome: LaunchOutcome::NotApplicable }
        },
        (LaunchState::ResolvingResources, LaunchEvent::ResourcesUnavailable) => LaunchState::Finished {
            outcome: LaunchOutcome::ResourceFailure,
        },
        (LaunchState::AllocatingPort, LaunchEvent::PortProbed { preferred_free }) => LaunchState::Spawning {
            endpoint: ListenEndpoint {
                port: ports::chosen_port(
                    ports::PREFERRED_PORT,
                    ports::FALLBACK_PORT,
                    preferred_free,
                ),
            },
        },
        (LaunchState::Spawning { endpoint }, LaunchEvent::SpawnSucceeded) => LaunchState::AttachingRelays {
            endpoint,
        },
        (LaunchState::Spawning { .. }, LaunchEvent::SpawnFailed) => LaunchState::Finished {
            outcome: LaunchOutcome::SpawnFailure,
        },
        (LaunchState::AttachingRelays { endpoint }, LaunchEvent::RelaysAttached) => LaunchState::Probing {
            endpoint,
        },
        (LaunchState::Probing { endpoint }, LaunchEvent::ProbeFinished { ready }) => LaunchState::Finished {
            outcome: LaunchOutcome::Launched { endpoint, ready },
        },
        _ => s,
    }
}

/// Advances the launch by one observed event.
pub fn launch_step(s: LaunchState, e: LaunchEvent) -> (next: LaunchState)
    ensures
        next == launch_transition(s, e),
{
    match (s, e) {
        (
            LaunchState::ResolvingResources,
            LaunchEvent::ResourcesResolved { entry_present },
        ) => if entry_present {
            LaunchState::AllocatingPort
        } else {
            LaunchState::Finished { outcome: LaunchOutcome::NotApplicable }
        },
        (LaunchState::ResolvingResources, LaunchEvent::ResourcesUnavailable) => LaunchState::Finished {
            outcome: LaunchOutcome::ResourceFailure,
        },
        (LaunchState::AllocatingPort, LaunchEvent::PortProbed { preferred_free }) => LaunchState::Spawning {
            endpoint: ports::allocate(preferred_free),
        },
        (LaunchState::Spawning { endpoint }, LaunchEvent::SpawnSucceeded) => LaunchState::AttachingRelays {
            endpoint,
        },
        (LaunchState::Spawning { .. }, LaunchEvent::SpawnFailed) => LaunchState::Finished {
            outcome: LaunchOutcome::SpawnFailure,
        },
        (LaunchState::AttachingRelays { endpoint }, LaunchEvent::RelaysAttached) => LaunchState::Probing {
            endpoint,
        },
        (LaunchState::Probing { endpoint }, LaunchEvent::ProbeFinished { ready }) => LaunchState::Finished {
            outcome: LaunchOutcome::Launched { endpoint, ready },
        },
        (s2, _) => s2,
    }
}

/// The outside step each state calls for.
pub open spec fn action_for(s: LaunchState) -> LaunchAction {
    match s {
        LaunchState::ResolvingResources => LaunchAction::ResolveResources,
        LaunchState::AllocatingPort => LaunchAction::ProbePreferredPort,
        LaunchState::Spawning { endpoint } => LaunchAction::SpawnBackend { endpoint },
        LaunchState::AttachingRelays { .. } => LaunchAction::AttachRelays,
        LaunchState::Probing { endpoint } => LaunchAction::RunReadinessProbe { endpoint },
        LaunchState::Finished { .. } => LaunchAction::Stop,
    }
}

pub fn next_action(s: LaunchState) -> (a: LaunchAction)
    ensures
        a == action_for(s),
{
    match s {
        LaunchState::ResolvingResources => LaunchAction::ResolveResources,
        LaunchState::AllocatingPort => LaunchAction::ProbePreferredPort,
        LaunchState::Spawning { endpoint } => LaunchAction::SpawnBackend { endpoint },
        LaunchState::AttachingRelays { .. } => LaunchAction::AttachRelays,
        LaunchState::Probing { endpoint } => LaunchAction::RunReadinessProbe { endpoint },
        LaunchState::Finished { .. } => LaunchAction::Stop,
    }
}

/// A missing entry file ends the launch at once: the next state is final
/// with outcome "not applicable", so no port is probed and no process
/// spawned.
pub proof fn lemma_missing_entry_skips_launch()
    ensures
        launch_transition(
            LaunchState::ResolvingResources,
            LaunchEvent::ResourcesResolved { entry_present: false },
        ) == (LaunchState::Finished { outcome: LaunchOutcome::NotApplicable }),
        action_for(LaunchState::Finished { outcome: LaunchOutcome::NotApplicable })
            == LaunchAction::Stop,
{
}

/// The spawned backend always binds the port the allocator chose: the
/// endpoint reaching the spawn step carries the preferred port exactly when
/// it was free, and the fallback port otherwise.
pub proof fn lemma_spawn_follows_port_policy(preferred_free: bool)
    ensures
        launch_transition(
            LaunchState::AllocatingPort,
            LaunchEvent::PortProbed { preferred_free },
        ) == (LaunchState::Spawning {
            endpoint: ListenEndpoint {
                port: if preferred_free {
                    ports::PREFERRED_PORT
                } else {
                    ports::FALLBACK_PORT
                },
            },
        }),
{
}

/// Every endpoint a launch state carries holds a port the policy can
/// choose: the preferred port or the fallback.
pub open spec fn endpoint_follows_policy(s: LaunchState) -> bool {
    match s {
        LaunchState::Spawning { endpoint }
        | LaunchState::AttachingRelays { endpoint }
        | LaunchState::Probing { endpoint }
        | LaunchState::Finished {
            outcome: LaunchOutcome::Launched { endpoint, .. },
        } => endpoint.port == ports::PREFERRED_PORT || endpoint.port == ports::FALLBACK_PORT,
        _ => true,
    }
}

/// The policy invariant is preserved by every transition, so the backend is
/// only ever spawned on, probed at, and reported with a policy port.
pub proof fn lemma_transitions_preserve_policy(s: LaunchState, e: LaunchEvent)
    requires
        endpoint_follows_policy(s),
    ensures
        endpoint_follows_policy(launch_transition(s, e)),
{
}

/// The environment the backend is launched with: its port, the production
/// flag, the loopback bind address, and the application's data and cache
/// directories (created by the driver before the spawn).
pub fn backend_env(port: u16, app_data_dir: &str, cache_dir: &str) -> (r: Vec<(String, String)>)
    ensures
        r@.len() == 5,
        r@[0].0@ == "PORT"@,
        r@[0].1@ == text::decimal_chars(port as nat),
        r@[1].0@ == "NODE_ENV"@,
        r@[1].1@ == "production"@,
        r@[2].0@ == "HOSTNAME"@,
        r@[2].1@ == "127.0.0.1"@,
        r@[3].0@ == "APP_DATA_DIR"@,
        r@[3].1@ == app_data_dir@,
        r@[4].0@ == "NEXT_CACHE_DIR"@,
        r@[4].1@ == cache_dir@,
{
    let mut v: Vec<(String, String)> = Vec::new();
    v.push((String::from_str("PORT"), text::decimal_string(port)));
    v.push((String::from_str("NODE_ENV"), String::from_str("production")));
    v.push((String::from_str("HOSTNAME"), String::from_str("127.0.0.1")));
    v.push((String::from_str("APP_DATA_DIR"), String::from_str(app_data_dir)));
    v.push((String::from_str("NEXT_CACHE_DIR"), String::from_str(cache_dir)));
    v
}

/// The backend installation directory inside the packaged resources.
pub fn backend_install_dir(resource_dir: &str) -> (r: String)
    ensures
        r@ == resource_dir@ + "/"@ + "next"@ + "/"@ + "standalone"@,
{
    let d = text::join_path(resource_dir, "next");
    text::join_path(d.as_str(), "standalone")
}

/// The entry file whose presence decides whether there is a packaged
/// backend to launch at all.
pub fn entry_file_name() -> (r: &'static str)
    ensures
        r@ == "server.js"@,
{
    "server.js"
}

/// Where the entry file must sit for a launch to be applicable.
pub fn entry_file_path(resource_dir: &str) -> (r: String)
    ensures
        r@ == resource_dir@ + "/"@ + "next"@ + "/"@ + "standalone"@ + "/"@ + "server.js"@,
{
    let d = backend_install_dir(resource_dir);
    text::join_path(d.as_str(), "server.js")
}

/// The bundled runtime that runs the entry file; the Windows build carries
/// the platform suffix.
pub fn runtime_path(resource_dir: &str, windows: bool) -> (r: String)
    ensures
        r@ == resource_dir@ + "/"@ + "bin"@ + "/"@ + (if windows {
            "node.exe"@
        } else {
            "node"@
        }),
{
    let d = text::join_path(resource_dir, "bin");
    if windows {
        text::join_path(d.as_str(), "node.exe")
    } else {
        text::join_path(d.as_str(), "node")
    }
}

} // verus!
