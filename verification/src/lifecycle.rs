//! Lifecycle coordination: what the shell must do when a window-close
//! request, a window-destroyed notification, or an application-exit
//! notification arrives. Zero or more of these fire, in any order, before
//! the shell exits; each one's response is decided here, and the slot
//! (`crate::slot`) makes the resulting terminations collapse to one kill.

use vstd::prelude::*;
use crate::logging;
use crate::logging::Severity;
use crate::logging::log_line_chars;
use crate::slot::take_model;

verus! {

/// A shell lifecycle event the coordinator subscribes to.
#[derive(Clone, Copy, PartialEq, Eq, Structural, Debug)]
pub enum LifecycleEvent {
    /// The user asked to close the window; the default close action can
    /// still be suppressed.
    CloseRequested,
    /// The window is already gone.
    WindowDestroyed,
    /// The host application was asked to exit, or is exiting.
    ExitRequested,
    Exiting,
    /// Any event the coordinator does not act on.
    Other,
}

/// Everything a lifecycle callback may have to do, as one record of flags;
/// the driver performs the flagged actions in the order of the fields.
#[derive(Clone, Copy, PartialEq, Eq, Structural, Debug)]
pub struct LifecycleResponse {
    /// Suppress the shell's default close action first, so the backend is
    /// not orphaned by the shell dying mid-termination.
    pub prevent_default_close: bool,
    /// Run the termination choke point (take from the slot, kill if a
    /// handle was present).
    pub terminate_backend: bool,
    /// Write the application-exit log line.
    pub log_app_exit: bool,
    /// Ask the shell to exit once the rest is done.
    pub request_exit: bool,
}

/// The full decision table: a close request suppresses the default close,
/// terminates, logs and exits by itself; a destroyed window only terminates
/// (exit handling follows as its own event); an exit notification terminates
/// and logs; anything else is ignored.
pub open spec fn response_for(e: LifecycleEvent) -> LifecycleResponse {
    match e {
        LifecycleEvent::CloseRequested => LifecycleResponse {
            prevent_default_close: true,
            terminate_backend: true,
            log_app_exit: true,
            request_exit: true,
        },
        LifecycleEvent::WindowDestroyed => LifecycleResponse {
            prevent_default_close: false,
            terminate_backend: true,
            log_app_exit: false,
            request_exit: false,
        },
        LifecycleEvent::ExitRequested | LifecycleEvent::Exiting => LifecycleResponse {
            prevent_default_close: false,
            terminate_backend: true,
            log_app_exit: true,
            request_exit: false,
        },
        LifecycleEvent::Other => LifecycleResponse {
            prevent_default_close: false,
            terminate_backend: false,
            log_app_exit: false,
            request_exit: false,
        },
    }
}

/// Decides the response to one lifecycle event.
pub fn respond(e: LifecycleEvent) -> (r: LifecycleResponse)
    ensures
        r == response_for(e),
{
    match e {
        LifecycleEvent::CloseRequested => LifecycleResponse {
            prevent_default_close: true,
            terminate_backend: true,
            log_app_exit: true,
            request_exit: true,
        },
        LifecycleEvent::WindowDestroyed => LifecycleResponse {
            prevent_default_close: false,
            terminate_backend: true,
            log_app_exit: false,
            request_exit: false,
        },
        LifecycleEvent::ExitRequested | LifecycleEvent::Exiting => LifecycleResponse {
            prevent_default_close: false,
            terminate_backend: true,
            log_app_exit: true,
            request_exit: false,
        },
        LifecycleEvent::Other => LifecycleResponse {
            prevent_default_close: false,
            terminate_backend: false,
            log_app_exit: false,
            request_exit: false,
        },
    }
}

/// The exact log lines one termination attempt writes: nothing when the
/// slot held no handle; otherwise the exit line followed by the kill's
/// success line, or by the failure line carrying the OS error text. A
/// rejected kill is logged and not escalated: shutdown proceeds regardless.
pub fn termination_lines(found: bool, kill_ok: bool, kill_error: &str) -> (r: Vec<String>)
    ensures
        r@.len() == (if found {
            2nat
        } else {
            0nat
        }),
        found ==> r@[0]@ == log_line_chars(Severity::Info, "Sidecar process exiting"@),
        found && kill_ok ==> r@[1]@ == log_line_chars(
            Severity::Info,
            "Sidecar process terminated successfully"@,
        ),
        found && !kill_ok ==> r@[1]@ == log_line_chars(
            Severity::Error,
            "Sidecar error: "@ + "Failed to kill sidecar process: "@ + kill_error@,
        ),
{
    let mut v: Vec<String> = Vec::new();
    if found {
        v.push(logging::sidecar_exit_line());
        if kill_ok {
            v.push(logging::terminate_success_line());
        } else {
            v.push(logging::kill_failure_line(kill_error));
        }
    }
    v
}

/// Every shutdown trigger runs the termination choke point, so whichever
/// fires first does the real work; and an ignored event changes nothing.
pub proof fn lemma_shutdown_triggers_terminate(e: LifecycleEvent)
    ensures
        !(e is Other) ==> response_for(e).terminate_backend,
        e is Other ==> response_for(e) == (LifecycleResponse {
            prevent_default_close: false,
            terminate_backend: false,
            log_app_exit: false,
            request_exit: false,
        }),
{
}

/// The slot after the coordinator has handled one event: a terminating event
/// runs the choke point, which empties the slot; any other leaves it alone.
pub open spec fn slot_after_event<T>(s: Option<T>, e: LifecycleEvent) -> Option<T> {
    if response_for(e).terminate_backend {
        take_model::<T>(s).1
    } else {
        s
    }
}

/// The handle one event's termination obtained, if it obtained any: only a
/// terminating event takes, and it gets whatever the slot held.
pub open spec fn handle_from_event<T>(s: Option<T>, e: LifecycleEvent) -> Option<T> {
    if response_for(e).terminate_backend {
        take_model::<T>(s).0
    } else {
        None
    }
}

/// The slot after a whole sequence of lifecycle events, handled in order.
pub open spec fn slot_after_events<T>(s: Option<T>, events: Seq<LifecycleEvent>) -> Option<T>
    decreases events.len(),
{
    if events.len() == 0 {
        s
    } else {
        slot_after_events(slot_after_event(s, events[0]), events.drop_first())
    }
}

/// How many kill signals a sequence of lifecycle events sends: one for each
/// event whose termination obtained a handle.
pub open spec fn kills_from_events<T>(s: Option<T>, events: Seq<LifecycleEvent>) -> nat
    decreases events.len(),
{
    if events.len() == 0 {
        0
    } else {
        (if handle_from_event(s, events[0]) is Some {
            1nat
        } else {
            0nat
        }) + kills_from_events(slot_after_event(s, events[0]), events.drop_first())
    }
}

/// Starting from an empty slot, no sequence of lifecycle events ever sends a
/// kill signal, and the slot stays empty.
pub proof fn lemma_no_handle_no_kill<T>(events: Seq<LifecycleEvent>)
    ensures
        kills_from_events(None::<T>, events) == 0,
        slot_after_events(None::<T>, events) is None,
    decreases events.len(),
{
    if events.len() > 0 {
        lemma_no_handle_no_kill::<T>(events.drop_first());
    }
}

/// However many shell lifecycle events fire, in whatever order, the process
/// is killed at most once; and exactly once as soon as a handle was
/// installed and at least one shutdown trigger fires.
pub proof fn lemma_shutdown_kills_exactly_once<T>(s: Option<T>, events: Seq<LifecycleEvent>)
    ensures
        kills_from_events(s, events) <= 1,
        s is None ==> kills_from_events(s, events) == 0,
        (s is Some && exists|i: int|
            0 <= i < events.len() && response_for(#[trigger] events[i]).terminate_backend)
            ==> kills_from_events(s, events) == 1,
    decreases events.len(),
{
    if events.len() == 0 {
    } else if response_for(events[0]).terminate_backend {
        lemma_no_handle_no_kill::<T>(events.drop_first());
    } else {
        lemma_shutdown_kills_exactly_once::<T>(s, events.drop_first());
        if s is Some && exists|i: int|
            0 <= i < events.len() && response_for(#[trigger] events[i]).terminate_backend {
            let i = choose|i: int|
                0 <= i < events.len() && response_for(#[trigger] events[i]).terminate_backend;
            assert(events.drop_first()[i - 1] == events[i]);
        }
    }
}

} // verus!
