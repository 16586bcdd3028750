use llm_wake_proxy::lifecycle::{
    BackendStatus, BootstrapAction, CapabilityState, EnsureStep, LifecycleDecision,
    LifecycleError, LifecycleManager, LifecycleRequest, LifecycleState, LifecycleTiming,
    Observation, ObservationStep, ObservedBackendState, Timestamp, TunnelState, UnitState,
    WaitStep,
};
use llm_wake_proxy::table::TextTable;

const FAKE_NOW: u64 = 1_717_156_800;

fn warming_backend() -> ObservedBackendState {
    ObservedBackendState {
        lifecycle: LifecycleState::Warming,
        chat: CapabilityState::Ready,
        embeddings: CapabilityState::Ready,
        embeddings_reason: None,
        error: None,
        llama_server_unit: UnitState::Activating,
        inhibit_unit: UnitState::Activating,
    }
}

fn ready_backend() -> ObservedBackendState {
    ObservedBackendState {
        lifecycle: LifecycleState::Ready,
        chat: CapabilityState::Ready,
        embeddings: CapabilityState::Ready,
        embeddings_reason: None,
        error: None,
        llama_server_unit: UnitState::Active,
        inhibit_unit: UnitState::Active,
    }
}

fn failed_backend(message: &str) -> ObservedBackendState {
    ObservedBackendState {
        lifecycle: LifecycleState::Error,
        chat: CapabilityState::Ready,
        embeddings: CapabilityState::Ready,
        embeddings_reason: None,
        error: Some(message.to_string()),
        llama_server_unit: UnitState::Failed,
        inhibit_unit: UnitState::Unknown,
    }
}

fn fast_warming_timing() -> LifecycleTiming {
    LifecycleTiming {
        cold_wait_budget_secs: 0,
        hard_boot_deadline_secs: 1,
        bootstrap_poll_interval_millis: 10,
        retry_after_secs: 10,
    }
}

fn ready_status() -> BackendStatus {
    BackendStatus {
        lifecycle: LifecycleState::Ready,
        tunnel: TunnelState::Ready,
        ..BackendStatus::default()
    }
}

/// Everything that an observation reaches for, with a record of what was asked.
struct World {
    ssh: Result<bool, LifecycleError>,
    wake: Result<(), LifecycleError>,
    helper: fn() -> Result<ObservedBackendState, LifecycleError>,
    tunnel: Result<TunnelState, LifecycleError>,
    wakes: Vec<LifecycleRequest>,
    observes: Vec<LifecycleRequest>,
    tunnels: usize,
}

fn world(ssh_ready: bool, tunnel: TunnelState) -> World {
    World {
        ssh: Ok(ssh_ready),
        wake: Ok(()),
        helper: || Ok(warming_backend()),
        tunnel: Ok(tunnel),
        wakes: Vec::new(),
        observes: Vec::new(),
        tunnels: 0,
    }
}

fn observe(world: &mut World, observation: Observation) -> LifecycleDecision {
    let mut step = observation.ssh_probed(world.ssh.clone());
    loop {
        step = match step {
            ObservationStep::Wake { request, observation } => {
                world.wakes.push(request);
                ObservationStep::Decided(
                    observation.wake_sent(Timestamp::new(FAKE_NOW), world.wake.clone()),
                )
            }
            ObservationStep::ObserveBackend(observation) => {
                world.observes.push(observation.observe_request);
                observation.backend_observed((world.helper)())
            }
            ObservationStep::EnsureTunnel(observation) => {
                world.tunnels += 1;
                ObservationStep::Decided(observation.tunnel_ensured(world.tunnel.clone()))
            }
            ObservationStep::Decided(decision) => return decision,
        };
    }
}

/// A request whose time to wait is spent at once, and whether it left a bootstrap running.
fn request(
    lifecycle: &mut LifecycleManager,
    world: &mut World,
    kind: LifecycleRequest,
) -> LifecycleDecision {
    match lifecycle.ensure_backend(kind) {
        EnsureStep::Decided(decision) => return decision,
        EnsureStep::Observe(observation) => {
            let decision = observe(world, observation);
            if let Some(decision) = lifecycle.first_observation(decision) {
                return decision;
            }
        }
        EnsureStep::Wait => {}
    }
    waited(lifecycle)
}

fn waited(lifecycle: &LifecycleManager) -> LifecycleDecision {
    match lifecycle.wait_step(true) {
        WaitStep::Decided(decision) => decision,
        WaitStep::Wait { .. } => panic!("time is spent"),
    }
}

/// One round of the bootstrap in the background; tells whether it goes on.
fn bootstrap_round(lifecycle: &mut LifecycleManager, world: &mut World, late: bool) -> bool {
    match lifecycle.bootstrap_tick(false, late) {
        BootstrapAction::Pause(_) => {}
        BootstrapAction::Stop => return false,
        BootstrapAction::Observe(_) => panic!("expected a pause"),
    }
    match lifecycle.bootstrap_tick(true, late) {
        BootstrapAction::Observe(observation) => {
            let decision = observe(world, observation);
            lifecycle.bootstrap_observed(decision)
        }
        BootstrapAction::Stop => false,
        BootstrapAction::Pause(_) => panic!("expected an observation"),
    }
}

#[test]
fn cold_request_marks_backend_warming_using_only_fakes() {
    let mut world = world(false, TunnelState::Down);
    let mut lifecycle =
        LifecycleManager::new_with_timing(BackendStatus::default(), fast_warming_timing());

    let decision = request(&mut lifecycle, &mut world, LifecycleRequest::Chat);

    match decision {
        LifecycleDecision::Warming {
            status,
            retry_after_secs,
        } => {
            assert_eq!(retry_after_secs, 10);
            assert_eq!(status.lifecycle, LifecycleState::Warming);
            assert_eq!(status.last_wake_attempt_at, Some(Timestamp::new(FAKE_NOW)));
        }
        other => panic!("expected warming decision, got {other:?}"),
    }

    let latest = lifecycle.status();
    assert_eq!(latest.lifecycle, LifecycleState::Warming);
    assert_eq!(latest.last_wake_attempt_at, Some(Timestamp::new(FAKE_NOW)));
}

#[test]
fn ready_backend_can_be_reached_with_fake_ports_only() {
    let mut world = world(true, TunnelState::Ready);
    world.helper = || Ok(ready_backend());
    let mut lifecycle = LifecycleManager::new(BackendStatus::default(), &TextTable::new());

    let decision = request(&mut lifecycle, &mut world, LifecycleRequest::Embeddings);

    match decision {
        LifecycleDecision::Ready(status) => {
            assert_eq!(status.lifecycle, LifecycleState::Ready);
            assert_eq!(status.tunnel, TunnelState::Ready);
            assert_eq!(status.llama_server_unit, UnitState::Active);
            assert_eq!(status.inhibit_unit, UnitState::Active);
        }
        other => panic!("expected ready decision, got {other:?}"),
    }

    let latest = lifecycle.status();
    assert_eq!(latest.lifecycle, LifecycleState::Ready);
    assert_eq!(latest.tunnel, TunnelState::Ready);
}

#[test]
fn wake_failures_publish_error_without_touching_real_dependencies() {
    let mut world = world(false, TunnelState::Down);
    world.wake = Err(LifecycleError::new("wake failed"));
    let mut lifecycle = LifecycleManager::new(BackendStatus::default(), &TextTable::new());

    let decision = request(&mut lifecycle, &mut world, LifecycleRequest::Chat);

    match decision {
        LifecycleDecision::Failed { status, error } => {
            assert_eq!(status.lifecycle, LifecycleState::Error);
            assert_eq!(error.message, "wake failed");
            assert_eq!(status.last_wake_attempt_at, Some(Timestamp::new(FAKE_NOW)));
        }
        other => panic!("expected failed decision, got {other:?}"),
    }

    let latest = lifecycle.status();
    assert_eq!(latest.lifecycle, LifecycleState::Error);
    assert_eq!(latest.last_wake_attempt_at, Some(Timestamp::new(FAKE_NOW)));
}

#[test]
fn concurrent_cold_requests_share_a_single_bootstrap_and_return_ready() {
    let mut world = world(false, TunnelState::Ready);
    let mut lifecycle = LifecycleManager::new_with_timing(
        BackendStatus::default(),
        LifecycleTiming {
            cold_wait_budget_secs: 1,
            hard_boot_deadline_secs: 1,
            bootstrap_poll_interval_millis: 10,
            retry_after_secs: 10,
        },
    );

    let observation = match lifecycle.ensure_backend(LifecycleRequest::Chat) {
        EnsureStep::Observe(observation) => observation,
        other => panic!("expected an observation, got {other:?}"),
    };
    let decision = observe(&mut world, observation);
    assert!(lifecycle.first_observation(decision).is_none());
    assert_eq!(lifecycle.ensure_backend(LifecycleRequest::Embeddings), EnsureStep::Wait);
    assert_eq!(lifecycle.wait_step(false), WaitStep::Wait { stale: false });

    world.ssh = Ok(true);
    world.helper = || Ok(ready_backend());
    assert!(!bootstrap_round(&mut lifecycle, &mut world, false));

    let first = lifecycle.wait_step(false);
    let second = lifecycle.wait_step(false);
    assert!(matches!(first, WaitStep::Decided(LifecycleDecision::Ready(_))));
    assert!(matches!(second, WaitStep::Decided(LifecycleDecision::Ready(_))));
    assert_eq!(world.wakes, vec![LifecycleRequest::Chat]);
    assert_eq!(world.observes, vec![LifecycleRequest::Embeddings]);
    assert_eq!(lifecycle.status().tunnel, TunnelState::Ready);
}

#[test]
fn embeddings_led_bootstrap_observes_embeddings_request_kind() {
    let mut world = world(false, TunnelState::Ready);
    let mut lifecycle = LifecycleManager::new_with_timing(
        BackendStatus::default(),
        LifecycleTiming {
            cold_wait_budget_secs: 1,
            hard_boot_deadline_secs: 1,
            bootstrap_poll_interval_millis: 10,
            retry_after_secs: 10,
        },
    );

    let decision = request(&mut lifecycle, &mut world, LifecycleRequest::Embeddings);
    assert!(matches!(decision, LifecycleDecision::Warming { .. }));
    assert_eq!(lifecycle.ensure_backend(LifecycleRequest::Chat), EnsureStep::Wait);

    world.ssh = Ok(true);
    world.helper = || Ok(ready_backend());
    assert!(!bootstrap_round(&mut lifecycle, &mut world, false));

    assert!(matches!(waited(&lifecycle), LifecycleDecision::Ready(_)));
    assert_eq!(world.wakes, vec![LifecycleRequest::Embeddings]);
    assert_eq!(world.observes, vec![LifecycleRequest::Embeddings]);
}

#[test]
fn helper_reported_error_returns_failed_decision() {
    let mut world = world(true, TunnelState::Ready);
    world.helper = || Ok(failed_backend("helper reported backend failure"));
    let mut lifecycle = LifecycleManager::new(BackendStatus::default(), &TextTable::new());

    let decision = request(&mut lifecycle, &mut world, LifecycleRequest::Chat);

    match decision {
        LifecycleDecision::Failed { status, error } => {
            assert_eq!(status.lifecycle, LifecycleState::Error);
            assert_eq!(status.tunnel, TunnelState::Down);
            assert_eq!(error.message, "helper reported backend failure");
        }
        other => panic!("expected failed decision, got {other:?}"),
    }

    let latest = lifecycle.status();
    assert_eq!(latest.lifecycle, LifecycleState::Error);
    assert_eq!(latest.tunnel, TunnelState::Down);
}

#[test]
fn ssh_not_ready_republishes_warming_state_from_ready_snapshot() {
    let mut world = world(false, TunnelState::Ready);
    let mut lifecycle = LifecycleManager::new_with_timing(ready_status(), fast_warming_timing());

    let decision = request(&mut lifecycle, &mut world, LifecycleRequest::Chat);

    match decision {
        LifecycleDecision::Ready(status) => {
            assert_eq!(status.lifecycle, LifecycleState::Ready);
            assert_eq!(status.tunnel, TunnelState::Ready);
        }
        other => panic!("expected ready decision, got {other:?}"),
    }

    let latest = lifecycle.status();
    assert_eq!(latest.lifecycle, LifecycleState::Ready);
    assert_eq!(latest.tunnel, TunnelState::Ready);
    assert_eq!(world.wakes.len(), 0);
}

#[test]
fn error_snapshot_retries_wake_when_ssh_is_not_ready() {
    let mut world = world(false, TunnelState::Down);
    let mut lifecycle = LifecycleManager::new_with_timing(
        BackendStatus {
            lifecycle: LifecycleState::Error,
            tunnel: TunnelState::Down,
            ..BackendStatus::default()
        },
        fast_warming_timing(),
    );

    let decision = request(&mut lifecycle, &mut world, LifecycleRequest::Chat);

    match decision {
        LifecycleDecision::Warming { status, .. } => {
            assert_eq!(status.lifecycle, LifecycleState::Warming);
            assert_eq!(status.tunnel, TunnelState::Down);
        }
        other => panic!("expected warming decision, got {other:?}"),
    }

    assert_eq!(lifecycle.status().lifecycle, LifecycleState::Warming);
    assert_eq!(world.wakes.len(), 1);
}

#[test]
fn warm_backend_reuses_existing_readiness_without_requesting_wake_or_observe() {
    let mut world = world(true, TunnelState::Ready);
    world.helper = || Ok(ready_backend());
    let mut lifecycle = LifecycleManager::new(ready_status(), &TextTable::new());

    let decision = request(&mut lifecycle, &mut world, LifecycleRequest::Chat);

    match decision {
        LifecycleDecision::Ready(status) => {
            assert_eq!(status.lifecycle, LifecycleState::Ready);
            assert_eq!(status.tunnel, TunnelState::Ready);
        }
        other => panic!("expected ready decision, got {other:?}"),
    }

    assert_eq!(world.wakes.len(), 0);
    assert_eq!(world.observes.len(), 0);
    assert_eq!(world.tunnels, 0);
    assert_eq!(lifecycle.status().lifecycle, LifecycleState::Ready);
}

#[test]
fn concurrent_warm_requests_do_not_join_bootstrap_wait_path() {
    let mut world = world(true, TunnelState::Ready);
    world.helper = || Ok(ready_backend());
    let mut lifecycle = LifecycleManager::new(ready_status(), &TextTable::new());

    let first = request(&mut lifecycle, &mut world, LifecycleRequest::Chat);
    let second = request(&mut lifecycle, &mut world, LifecycleRequest::Embeddings);

    assert!(matches!(first, LifecycleDecision::Ready(_)));
    assert!(matches!(second, LifecycleDecision::Ready(_)));
    assert!(!lifecycle.bootstrap.active);
    assert_eq!(world.wakes.len(), 0);
    assert_eq!(world.observes.len(), 0);
    assert_eq!(world.tunnels, 0);
}

#[test]
fn restart_rediscovery_adopts_ready_backend_and_creates_fresh_tunnel() {
    let mut world = world(true, TunnelState::Ready);
    world.helper = || Ok(ready_backend());
    let mut lifecycle = LifecycleManager::new(BackendStatus::default(), &TextTable::new());

    let decision = request(&mut lifecycle, &mut world, LifecycleRequest::Chat);

    match decision {
        LifecycleDecision::Ready(status) => {
            assert_eq!(status.lifecycle, LifecycleState::Ready);
            assert_eq!(status.tunnel, TunnelState::Ready);
            assert_eq!(status.llama_server_unit, UnitState::Active);
            assert_eq!(status.inhibit_unit, UnitState::Active);
        }
        other => panic!("expected ready decision, got {other:?}"),
    }

    assert_eq!(world.wakes.len(), 0);
    assert_eq!(world.tunnels, 1);
    assert_eq!(lifecycle.status().lifecycle, LifecycleState::Ready);
}

#[test]
fn request_times_out_but_background_bootstrap_keeps_running() {
    let mut world = world(false, TunnelState::Ready);
    let mut lifecycle =
        LifecycleManager::new_with_timing(BackendStatus::default(), fast_warming_timing());

    let decision = request(&mut lifecycle, &mut world, LifecycleRequest::Chat);
    assert!(matches!(decision, LifecycleDecision::Warming { .. }));
    assert!(bootstrap_round(&mut lifecycle, &mut world, false));

    world.ssh = Ok(true);
    world.helper = || Ok(ready_backend());
    assert!(!bootstrap_round(&mut lifecycle, &mut world, false));

    let latest = lifecycle.status();
    assert_eq!(latest.lifecycle, LifecycleState::Ready);
    assert_eq!(latest.tunnel, TunnelState::Ready);
    assert_eq!(world.wakes.len(), 1);
}

#[test]
fn background_bootstrap_fails_at_hard_deadline_after_request_timeout() {
    let mut world = world(false, TunnelState::Ready);
    let mut lifecycle = LifecycleManager::new_with_timing(
        BackendStatus::default(),
        LifecycleTiming {
            cold_wait_budget_secs: 0,
            hard_boot_deadline_secs: 0,
            bootstrap_poll_interval_millis: 1,
            retry_after_secs: 10,
        },
    );

    let decision = request(&mut lifecycle, &mut world, LifecycleRequest::Chat);
    assert!(matches!(decision, LifecycleDecision::Warming { .. }));

    let left = lifecycle.bootstrap_seconds_left(Timestamp::new(FAKE_NOW));
    assert_eq!(left, 0);
    assert!(!bootstrap_round(&mut lifecycle, &mut world, left == 0));

    let latest = lifecycle.status();
    assert_eq!(latest.lifecycle, LifecycleState::Error);
    assert_eq!(latest.tunnel, TunnelState::Down);
}

#[test]
fn joiner_does_not_observe_stale_ready_during_retry_bootstrap() {
    let mut world = world(false, TunnelState::Down);
    let mut lifecycle = LifecycleManager::new_with_timing(ready_status(), fast_warming_timing());

    let first = request(&mut lifecycle, &mut world, LifecycleRequest::Chat);
    let second = request(&mut lifecycle, &mut world, LifecycleRequest::Embeddings);

    assert!(matches!(first, LifecycleDecision::Ready { .. }));
    assert!(matches!(second, LifecycleDecision::Ready { .. }));
    assert_eq!(world.wakes.len(), 0);
}

#[test]
fn joiner_does_not_observe_stale_error_during_retry_bootstrap() {
    let mut world = world(false, TunnelState::Down);
    let mut lifecycle = LifecycleManager::new_with_timing(
        BackendStatus {
            lifecycle: LifecycleState::Error,
            tunnel: TunnelState::Down,
            ..BackendStatus::default()
        },
        fast_warming_timing(),
    );

    let observation = match lifecycle.ensure_backend(LifecycleRequest::Chat) {
        EnsureStep::Observe(observation) => observation,
        other => panic!("expected an observation, got {other:?}"),
    };
    // The second request comes before the first one has looked at the backend.
    let second = request(&mut lifecycle, &mut world, LifecycleRequest::Embeddings);
    let decision = observe(&mut world, observation);
    assert!(lifecycle.first_observation(decision).is_none());
    let first = waited(&lifecycle);

    assert!(matches!(first, LifecycleDecision::Warming { .. }));
    assert!(matches!(second, LifecycleDecision::Warming { .. }));
    assert_eq!(world.wakes.len(), 1);
}

#[test]
fn concurrent_waiters_receive_specific_boot_deadline_failure_reason() {
    let mut world = world(false, TunnelState::Ready);
    let mut lifecycle = LifecycleManager::new_with_timing(
        BackendStatus::default(),
        LifecycleTiming {
            cold_wait_budget_secs: 1,
            hard_boot_deadline_secs: 0,
            bootstrap_poll_interval_millis: 1,
            retry_after_secs: 10,
        },
    );

    let decision = request(&mut lifecycle, &mut world, LifecycleRequest::Chat);
    assert!(matches!(decision, LifecycleDecision::Warming { .. }));
    assert_eq!(lifecycle.ensure_backend(LifecycleRequest::Embeddings), EnsureStep::Wait);
    let late = lifecycle.bootstrap_seconds_left(Timestamp::new(FAKE_NOW)) == 0;
    assert!(!bootstrap_round(&mut lifecycle, &mut world, late));

    let expected = "backend did not become ready before the boot deadline";

    match waited(&lifecycle) {
        LifecycleDecision::Failed { error, .. } => assert_eq!(error.message, expected),
        other => panic!("expected failed decision, got {other:?}"),
    }

    match waited(&lifecycle) {
        LifecycleDecision::Failed { error, .. } => assert_eq!(error.message, expected),
        other => panic!("expected failed decision, got {other:?}"),
    }
}

#[test]
fn ssh_error_fails_without_a_wake() {
    let mut world = world(false, TunnelState::Ready);
    world.ssh = Err(LifecycleError::new("no route"));
    let mut lifecycle =
        LifecycleManager::new_with_timing(BackendStatus::default(), fast_warming_timing());

    match request(&mut lifecycle, &mut world, LifecycleRequest::Chat) {
        LifecycleDecision::Failed { status, error } => {
            assert_eq!(error.message, "no route");
            assert_eq!(status.lifecycle, LifecycleState::Error);
            assert_eq!(status.last_wake_attempt_at, None);
        }
        other => panic!("expected failed decision, got {other:?}"),
    }
    assert!(world.wakes.is_empty());
    assert!(!lifecycle.bootstrap.active);
    assert_eq!(lifecycle.bootstrap.last_error, Some(LifecycleError::new("no route")));
}

#[test]
fn helper_error_without_a_message_has_a_default() {
    let mut world = world(true, TunnelState::Ready);
    world.helper = || {
        Ok(ObservedBackendState {
            error: None,
            ..failed_backend("")
        })
    };
    let mut lifecycle =
        LifecycleManager::new_with_timing(BackendStatus::default(), fast_warming_timing());

    match request(&mut lifecycle, &mut world, LifecycleRequest::Chat) {
        LifecycleDecision::Failed { error, .. } => {
            assert_eq!(error.message, "backend reported error state");
        }
        other => panic!("expected failed decision, got {other:?}"),
    }
}

#[test]
fn helper_that_cannot_be_asked_fails_the_request() {
    let mut world = world(true, TunnelState::Ready);
    world.helper = || Err(LifecycleError::new("ssh failed: broken pipe"));
    let mut lifecycle =
        LifecycleManager::new_with_timing(BackendStatus::default(), fast_warming_timing());

    match request(&mut lifecycle, &mut world, LifecycleRequest::Chat) {
        LifecycleDecision::Failed { status, error } => {
            assert_eq!(error.message, "ssh failed: broken pipe");
            assert_eq!(status.tunnel, TunnelState::Down);
        }
        other => panic!("expected failed decision, got {other:?}"),
    }
}

#[test]
fn tunnel_that_is_not_up_keeps_the_backend_warming() {
    let mut world = world(true, TunnelState::Connecting);
    world.helper = || Ok(ready_backend());
    let mut lifecycle =
        LifecycleManager::new_with_timing(BackendStatus::default(), fast_warming_timing());

    match request(&mut lifecycle, &mut world, LifecycleRequest::Chat) {
        LifecycleDecision::Warming { status, .. } => {
            assert_eq!(status.lifecycle, LifecycleState::Warming);
            assert_eq!(status.tunnel, TunnelState::Connecting);
        }
        other => panic!("expected warming decision, got {other:?}"),
    }
    assert!(lifecycle.bootstrap.active);
}

#[test]
fn tunnel_error_fails_the_request() {
    let mut world = world(true, TunnelState::Ready);
    world.helper = || Ok(ready_backend());
    world.tunnel = Err(LifecycleError::new("failed to check tunnel: gone"));
    let mut lifecycle =
        LifecycleManager::new_with_timing(BackendStatus::default(), fast_warming_timing());

    match request(&mut lifecycle, &mut world, LifecycleRequest::Chat) {
        LifecycleDecision::Failed { status, error } => {
            assert_eq!(error.message, "failed to check tunnel: gone");
            assert_eq!(status.lifecycle, LifecycleState::Error);
            assert_eq!(status.tunnel, TunnelState::Down);
        }
        other => panic!("expected failed decision, got {other:?}"),
    }
}

#[test]
fn backend_that_is_starting_is_not_woken_again() {
    let mut world = world(false, TunnelState::Down);
    let mut lifecycle = LifecycleManager::new_with_timing(
        BackendStatus {
            lifecycle: LifecycleState::Warming,
            ..BackendStatus::default()
        },
        fast_warming_timing(),
    );

    let decision = request(&mut lifecycle, &mut world, LifecycleRequest::Chat);
    assert!(matches!(decision, LifecycleDecision::Warming { .. }));
    assert!(world.wakes.is_empty());
    assert!(bootstrap_round(&mut lifecycle, &mut world, false));
    assert!(world.wakes.is_empty());
}

#[test]
fn bootstrap_pauses_for_the_poll_interval() {
    let mut lifecycle =
        LifecycleManager::new_with_timing(BackendStatus::default(), fast_warming_timing());
    assert_eq!(lifecycle.bootstrap_tick(false, false), BootstrapAction::Pause(10));
}

#[test]
fn boot_deadline_counts_from_the_last_wake() {
    let timing = LifecycleTiming {
        hard_boot_deadline_secs: 300,
        ..fast_warming_timing()
    };
    let mut lifecycle = LifecycleManager::new_with_timing(BackendStatus::default(), timing);
    assert_eq!(lifecycle.bootstrap_seconds_left(Timestamp::new(1000)), 300);
    lifecycle.status.last_wake_attempt_at = Some(Timestamp::new(900));
    assert_eq!(lifecycle.bootstrap_seconds_left(Timestamp::new(1000)), 200);
    assert_eq!(lifecycle.bootstrap_seconds_left(Timestamp::new(1200)), 0);
    assert_eq!(lifecycle.bootstrap_seconds_left(Timestamp::new(u64::MAX)), 0);
    lifecycle.status.last_wake_attempt_at = Some(Timestamp::new(u64::MAX));
    assert_eq!(lifecycle.bootstrap_seconds_left(Timestamp::new(u64::MAX)), 0);
}

#[test]
fn marking_a_backend_warming_forgets_that_it_was_ready() {
    let mut lifecycle = LifecycleManager::new_with_timing(ready_status(), fast_warming_timing());
    lifecycle.mark_warming();
    assert_eq!(lifecycle.status().lifecycle, LifecycleState::Warming);
    assert_eq!(lifecycle.status().tunnel, TunnelState::Down);
    assert!(matches!(
        lifecycle.ensure_backend(LifecycleRequest::Chat),
        EnsureStep::Observe(_)
    ));
}

#[test]
fn missing_embeddings_do_not_end_readiness() {
    let mut lifecycle = LifecycleManager::new_with_timing(ready_status(), fast_warming_timing());
    lifecycle.degrade_embeddings("upstream returned 404".to_string());
    let status = lifecycle.status();
    assert_eq!(status.embeddings, CapabilityState::Degraded);
    assert_eq!(status.embeddings_reason.as_deref(), Some("upstream returned 404"));
    assert!(matches!(
        lifecycle.ensure_backend(LifecycleRequest::Chat),
        EnsureStep::Decided(LifecycleDecision::Ready(_))
    ));
}

#[test]
fn a_request_whose_time_runs_out_sees_no_status_from_before_the_bootstrap() {
    let mut lifecycle = LifecycleManager::new_with_timing(
        BackendStatus {
            lifecycle: LifecycleState::Error,
            ..BackendStatus::default()
        },
        fast_warming_timing(),
    );
    assert!(matches!(
        lifecycle.ensure_backend(LifecycleRequest::Chat),
        EnsureStep::Observe(_)
    ));
    assert_eq!(lifecycle.wait_step(false), WaitStep::Wait { stale: true });
    match lifecycle.wait_over(true) {
        LifecycleDecision::Warming { status, retry_after_secs } => {
            assert_eq!(status.lifecycle, LifecycleState::Warming);
            assert_eq!(retry_after_secs, 10);
        }
        other => panic!("expected warming decision, got {other:?}"),
    }
}

#[test]
fn waiters_of_a_failed_backend_without_a_recorded_error_are_told_so() {
    let lifecycle = LifecycleManager::new_with_timing(
        BackendStatus {
            lifecycle: LifecycleState::Error,
            ..BackendStatus::default()
        },
        fast_warming_timing(),
    );
    match waited(&lifecycle) {
        LifecycleDecision::Failed { error, .. } => {
            assert_eq!(error.message, "backend reported error state");
        }
        other => panic!("expected failed decision, got {other:?}"),
    }
}

#[test]
fn timing_comes_from_the_environment() {
    let mut env = TextTable::new();
    assert_eq!(
        LifecycleTiming::from_env(&env),
        LifecycleTiming {
            cold_wait_budget_secs: 90,
            hard_boot_deadline_secs: 300,
            bootstrap_poll_interval_millis: 1_000,
            retry_after_secs: 10,
        }
    );
    env.insert("COLD_WAIT_BUDGET_SECS".to_string(), "5".to_string());
    env.insert("HARD_BOOT_DEADLINE_SECS".to_string(), "six".to_string());
    env.insert("BOOTSTRAP_POLL_INTERVAL_MS".to_string(), "+7".to_string());
    env.insert("RETRY_AFTER_SECS".to_string(), "18446744073709551616".to_string());
    assert_eq!(
        LifecycleTiming::from_env(&env),
        LifecycleTiming {
            cold_wait_budget_secs: 5,
            hard_boot_deadline_secs: 300,
            bootstrap_poll_interval_millis: 7,
            retry_after_secs: 10,
        }
    );
}

#[test]
fn unreachable_backend_needs_a_fresh_wake() {
    let mut world = world(false, TunnelState::Down);
    let mut lifecycle = LifecycleManager::new_with_timing(ready_status(), fast_warming_timing());
    lifecycle.mark_unreachable();
    assert_eq!(lifecycle.status().lifecycle, LifecycleState::Cold);
    assert_eq!(lifecycle.status().tunnel, TunnelState::Down);
    request(&mut lifecycle, &mut world, LifecycleRequest::Chat);
    assert_eq!(world.wakes, vec![LifecycleRequest::Chat]);

    // A bootstrap that is running is left to it.
    assert!(lifecycle.bootstrap.active);
    lifecycle.mark_unreachable();
    assert_eq!(lifecycle.status().lifecycle, LifecycleState::Warming);
    request(&mut lifecycle, &mut world, LifecycleRequest::Chat);
    assert_eq!(world.wakes.len(), 1);
}

#[test]
fn the_wait_for_a_backend_is_the_configured_one() {
    let lifecycle = LifecycleManager::new(BackendStatus::default(), &TextTable::new());
    assert_eq!(lifecycle.wait_budget_secs(), 90);
    let mut env = TextTable::new();
    env.insert("COLD_WAIT_BUDGET_SECS".to_string(), "7".to_string());
    assert_eq!(
        LifecycleManager::new(BackendStatus::default(), &env).wait_budget_secs(),
        7
    );
    let lifecycle =
        LifecycleManager::new_with_timing(BackendStatus::default(), fast_warming_timing());
    assert_eq!(lifecycle.wait_budget_secs(), 0);
}
