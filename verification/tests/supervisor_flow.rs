use sidecar_supervisor::lifecycle::LifecycleEvent;
use sidecar_supervisor::lifecycle::LifecycleResponse;
use sidecar_supervisor::lifecycle::respond;
use sidecar_supervisor::lifecycle::termination_lines;
use sidecar_supervisor::ports::ListenEndpoint;
use sidecar_supervisor::slot::ProcessSlot;
use sidecar_supervisor::supervisor::LaunchAction;
use sidecar_supervisor::supervisor::LaunchEvent;
use sidecar_supervisor::supervisor::LaunchOutcome;
use sidecar_supervisor::supervisor::LaunchState;
use sidecar_supervisor::supervisor::backend_env;
use sidecar_supervisor::supervisor::launch_step;
use sidecar_supervisor::supervisor::next_action;

fn drive(events: &[LaunchEvent]) -> (LaunchState, Vec<LaunchAction>) {
    let mut state = LaunchState::ResolvingResources;
    let mut actions = vec![next_action(state)];
    for e in events {
        state = launch_step(state, *e);
        actions.push(next_action(state));
    }
    (state, actions)
}

#[test]
fn entry_file_absent_skips_launch() {
    let (state, actions) = drive(&[LaunchEvent::ResourcesResolved { entry_present: false }]);
    assert_eq!(
        state,
        LaunchState::Finished { outcome: LaunchOutcome::NotApplicable }
    );
    assert_eq!(
        actions,
        vec![LaunchAction::ResolveResources, LaunchAction::Stop]
    );
    for a in &actions {
        assert!(!matches!(a, LaunchAction::SpawnBackend { .. }));
        assert!(!matches!(a, LaunchAction::ProbePreferredPort));
    }
}

#[test]
fn preferred_port_free_launches_on_it() {
    let (state, actions) = drive(&[
        LaunchEvent::ResourcesResolved { entry_present: true },
        LaunchEvent::PortProbed { preferred_free: true },
        LaunchEvent::SpawnSucceeded,
        LaunchEvent::RelaysAttached,
        LaunchEvent::ProbeFinished { ready: true },
    ]);
    let endpoint = ListenEndpoint { port: 34425 };
    assert_eq!(
        state,
        LaunchState::Finished { outcome: LaunchOutcome::Launched { endpoint, ready: true } }
    );
    assert_eq!(
        actions,
        vec![
            LaunchAction::ResolveResources,
            LaunchAction::ProbePreferredPort,
            LaunchAction::SpawnBackend { endpoint },
            LaunchAction::AttachRelays,
            LaunchAction::RunReadinessProbe { endpoint },
            LaunchAction::Stop,
        ]
    );
}

#[test]
fn occupied_preferred_port_falls_back() {
    let (state, _) = drive(&[
        LaunchEvent::ResourcesResolved { entry_present: true },
        LaunchEvent::PortProbed { preferred_free: false },
    ]);
    let endpoint = ListenEndpoint { port: 3000 };
    assert_eq!(state, LaunchState::Spawning { endpoint });
    assert_eq!(next_action(state), LaunchAction::SpawnBackend { endpoint });
    let env = backend_env(3000, "/data", "/cache");
    assert_eq!(env[0], ("PORT".to_string(), "3000".to_string()));
}

#[test]
fn resource_failure_is_terminal() {
    let (state, _) = drive(&[LaunchEvent::ResourcesUnavailable]);
    assert_eq!(
        state,
        LaunchState::Finished { outcome: LaunchOutcome::ResourceFailure }
    );
}

#[test]
fn spawn_failure_is_terminal() {
    let (state, _) = drive(&[
        LaunchEvent::ResourcesResolved { entry_present: true },
        LaunchEvent::PortProbed { preferred_free: true },
        LaunchEvent::SpawnFailed,
    ]);
    assert_eq!(
        state,
        LaunchState::Finished { outcome: LaunchOutcome::SpawnFailure }
    );
    assert_eq!(next_action(state), LaunchAction::Stop);
}

#[test]
fn readiness_timeout_does_not_fail_the_launch() {
    let (state, _) = drive(&[
        LaunchEvent::ResourcesResolved { entry_present: true },
        LaunchEvent::PortProbed { preferred_free: true },
        LaunchEvent::SpawnSucceeded,
        LaunchEvent::RelaysAttached,
        LaunchEvent::ProbeFinished { ready: false },
    ]);
    let endpoint = ListenEndpoint { port: 34425 };
    assert_eq!(
        state,
        LaunchState::Finished { outcome: LaunchOutcome::Launched { endpoint, ready: false } }
    );
}

#[test]
fn mismatched_event_changes_nothing() {
    let state = LaunchState::ResolvingResources;
    assert_eq!(launch_step(state, LaunchEvent::SpawnSucceeded), state);
    assert_eq!(
        launch_step(state, LaunchEvent::ProbeFinished { ready: true }),
        state
    );
}

#[test]
fn backend_env_holds_all_five_variables() {
    let env = backend_env(34425, "/home/u/data", "/home/u/cache");
    assert_eq!(env.len(), 5);
    assert_eq!(env[0], ("PORT".to_string(), "34425".to_string()));
    assert_eq!(env[1], ("NODE_ENV".to_string(), "production".to_string()));
    assert_eq!(env[2], ("HOSTNAME".to_string(), "127.0.0.1".to_string()));
    assert_eq!(env[3], ("APP_DATA_DIR".to_string(), "/home/u/data".to_string()));
    assert_eq!(env[4], ("NEXT_CACHE_DIR".to_string(), "/home/u/cache".to_string()));
}

#[test]
fn slot_hands_the_handle_out_exactly_once() {
    let mut slot: ProcessSlot<u32> = ProcessSlot::new();
    slot.install(4242);
    let mut kills = 0;
    for _ in 0..5 {
        if let Some(h) = slot.take_for_termination() {
            assert_eq!(h, 4242);
            kills += 1;
        }
    }
    assert_eq!(kills, 1);
}

#[test]
fn empty_slot_never_yields_a_handle() {
    let mut slot: ProcessSlot<u32> = ProcessSlot::new();
    assert_eq!(slot.take_for_termination(), None);
    assert_eq!(slot.take_for_termination(), None);
}

#[test]
fn two_shutdown_events_kill_once() {
    let mut slot: ProcessSlot<u32> = ProcessSlot::new();
    slot.install(9);
    let mut kills = 0;
    for e in [LifecycleEvent::WindowDestroyed, LifecycleEvent::ExitRequested] {
        if respond(e).terminate_backend && slot.take_for_termination().is_some() {
            kills += 1;
        }
    }
    assert_eq!(kills, 1);
}

#[test]
fn close_request_suppresses_default_and_exits() {
    assert_eq!(
        respond(LifecycleEvent::CloseRequested),
        LifecycleResponse {
            prevent_default_close: true,
            terminate_backend: true,
            log_app_exit: true,
            request_exit: true,
        }
    );
}

#[test]
fn window_destroyed_only_terminates() {
    assert_eq!(
        respond(LifecycleEvent::WindowDestroyed),
        LifecycleResponse {
            prevent_default_close: false,
            terminate_backend: true,
            log_app_exit: false,
            request_exit: false,
        }
    );
}

#[test]
fn exit_events_terminate_and_log() {
    for e in [LifecycleEvent::ExitRequested, LifecycleEvent::Exiting] {
        let r = respond(e);
        assert!(r.terminate_backend);
        assert!(r.log_app_exit);
        assert!(!r.prevent_default_close);
        assert!(!r.request_exit);
    }
}

#[test]
fn unrelated_event_is_ignored() {
    let r = respond(LifecycleEvent::Other);
    assert!(!r.terminate_backend && !r.prevent_default_close && !r.log_app_exit && !r.request_exit);
}

#[test]
fn termination_writes_exit_and_success_lines() {
    let lines = termination_lines(true, true, "");
    assert_eq!(
        lines,
        vec![
            "[INFO] Sidecar process exiting".to_string(),
            "[INFO] Sidecar process terminated successfully".to_string(),
        ]
    );
}

#[test]
fn rejected_kill_is_logged_not_escalated() {
    let lines = termination_lines(true, false, "permission denied");
    assert_eq!(
        lines,
        vec![
            "[INFO] Sidecar process exiting".to_string(),
            "[ERROR] Sidecar error: Failed to kill sidecar process: permission denied".to_string(),
        ]
    );
}

#[test]
fn termination_with_empty_slot_logs_nothing() {
    assert_eq!(termination_lines(false, false, ""), Vec::<String>::new());
}
