use llm_wake_proxy::config::{
    AppConfig, EmbeddingsConfig, HostConfig, ModelConfig, WarmExecutionConfig,
};
use llm_wake_proxy::forward::{non_streaming_answer, ForwardError};
use llm_wake_proxy::http_error::ErrorReply;
use llm_wake_proxy::lifecycle::{
    BackendStatus, CapabilityState, EnsureStep, LifecycleDecision, LifecycleError,
    LifecycleManager, LifecycleRequest, LifecycleState, LifecycleTiming, ObservationStep,
    TunnelState,
};
use llm_wake_proxy::orchestrate::{
    cold_place, retry_finished, FlowStep, ForwardOutcome, ForwardPlan, Orchestrator,
    UnreachablePolicy,
};
use llm_wake_proxy::scheduler::{SlotOffer, WarmExecutionError};
use llm_wake_proxy::state::AppState;

fn test_config() -> AppConfig {
    AppConfig {
        listen_port: 3000,
        model: ModelConfig {
            alias: "proxy-model".to_string(),
            provider_id: "llama.cpp".to_string(),
            owned_by: "test-suite".to_string(),
        },
        embeddings: EmbeddingsConfig {
            enabled: true,
            backend: None,
        },
        warm_execution: WarmExecutionConfig::default(),
        host: HostConfig {
            host: "192.168.1.100".to_string(),
            ssh_user: "test-user".to_string(),
            ssh_port: 22,
            wol_mac: [0xAA, 0xBB, 0xCC, 0xDD, 0xEE, 0xFF],
            wol_broadcast: "255.255.255.255".to_string(),
            wol_port: 9,
            helper_path: "/usr/local/bin/llm-wake-proxy-helper".to_string(),
            model_path: "/models/test-model.gguf".to_string(),
            ssh_key_path: "~/.ssh/ssh-privatekey".to_string(),
            tunnel_local_port: 18080,
            remote_port: 8080,
        },
        cold_start_max_waiting: 32,
    }
}

fn ready_status() -> BackendStatus {
    BackendStatus {
        lifecycle: LifecycleState::Ready,
        tunnel: TunnelState::Ready,
        ..BackendStatus::default()
    }
}

fn timing() -> LifecycleTiming {
    LifecycleTiming {
        cold_wait_budget_secs: 90,
        hard_boot_deadline_secs: 300,
        bootstrap_poll_interval_millis: 1_000,
        retry_after_secs: 10,
    }
}

fn orchestrator(status: BackendStatus) -> Orchestrator {
    let lifecycle = LifecycleManager::new_with_timing(status, timing());
    Orchestrator::new(AppState::with_lifecycle(test_config(), lifecycle))
}

fn reply(step: FlowStep) -> ErrorReply {
    match step {
        FlowStep::Reply(reply) => reply,
        other => panic!("expected a reply, got {other:?}"),
    }
}

fn forward(step: FlowStep) -> ForwardPlan {
    match step {
        FlowStep::Forward(plan) => plan,
        other => panic!("expected the request to be forwarded, got {other:?}"),
    }
}

#[test]
fn warming_decision_returns_warming_up_with_retry_after() {
    let backend = BackendStatus {
        lifecycle: LifecycleState::Warming,
        ..BackendStatus::default()
    };
    let mut orchestrator = orchestrator(backend.clone());
    let reply = reply(orchestrator.backend_decided(
        LifecycleRequest::Chat,
        LifecycleDecision::Warming {
            status: backend,
            retry_after_secs: 7,
        },
    ));
    assert_eq!(reply.status, 503);
    assert_eq!(reply.retry_after.as_deref(), Some("7"));
    assert_eq!(reply.body()["error"]["type"], "warming_up");

    let snapshot = orchestrator.state.metrics.snapshot();
    assert_eq!(snapshot.cold_starts, 1);
    assert_eq!(snapshot.wake_attempts, 1);
}

#[test]
fn failed_decision_returns_backend_error() {
    let backend = BackendStatus {
        lifecycle: LifecycleState::Error,
        ..BackendStatus::default()
    };
    let mut orchestrator = orchestrator(backend.clone());
    let reply = reply(orchestrator.backend_decided(
        LifecycleRequest::Embeddings,
        LifecycleDecision::Failed {
            status: backend,
            error: LifecycleError::new("helper command failed"),
        },
    ));
    assert_eq!(reply.status, 503);
    assert!(reply.retry_after.is_none());
    let json = reply.body();
    assert_eq!(json["error"]["type"], "backend_error");
    assert_eq!(json["error"]["message"], "helper command failed");
    assert_eq!(orchestrator.state.metrics.snapshot().wake_failures, 1);
}

#[test]
fn cold_start_semaphore_exhaustion_returns_warming_up() {
    let mut config = test_config();
    config.cold_start_max_waiting = 1;
    let lifecycle = LifecycleManager::new_with_timing(BackendStatus::default(), timing());
    let orchestrator = Orchestrator::new(AppState::with_lifecycle(config, lifecycle));

    let permit = orchestrator
        .acquire_cold_permit(LifecycleRequest::Embeddings)
        .unwrap();
    assert!(permit.is_some());

    let reply = orchestrator
        .acquire_cold_permit(LifecycleRequest::Chat)
        .unwrap_err();
    assert_eq!(reply.status, 503);
    assert_eq!(reply.retry_after.as_deref(), Some("10"));
    let json = reply.body();
    assert_eq!(json["error"]["type"], "warming_up");
    assert_eq!(
        json["error"]["message"],
        "cold-start queue is full, retry later"
    );

    drop(permit);
    assert!(orchestrator
        .acquire_cold_permit(LifecycleRequest::Chat)
        .unwrap()
        .is_some());
    assert!(cold_place(SlotOffer::Closed).is_err());
}

#[test]
fn warm_requests_need_no_cold_place() {
    let mut config = test_config();
    config.cold_start_max_waiting = 1;
    let lifecycle = LifecycleManager::new_with_timing(ready_status(), timing());
    let orchestrator = Orchestrator::new(AppState::with_lifecycle(config, lifecycle));
    for _ in 0..3 {
        assert!(orchestrator
            .acquire_cold_permit(LifecycleRequest::Chat)
            .unwrap()
            .is_none());
    }
}

#[test]
fn embeddings_degraded_capability_returns_bad_request_without_forwarding() {
    let backend = BackendStatus {
        embeddings: CapabilityState::Degraded,
        embeddings_reason: Some("remote disabled".to_string()),
        ..ready_status()
    };
    let mut orchestrator = orchestrator(backend.clone());
    let refused = reply(orchestrator.backend_decided(
        LifecycleRequest::Embeddings,
        LifecycleDecision::Ready(backend.clone()),
    ));
    assert_eq!(refused.status, 400);
    let json = refused.body();
    assert_eq!(json["error"]["type"], "unsupported_embeddings");
    assert_eq!(json["error"]["message"], "remote disabled");

    let unexplained = BackendStatus { embeddings_reason: None, ..backend.clone() };
    let refused = reply(orchestrator.backend_decided(
        LifecycleRequest::Embeddings,
        LifecycleDecision::Ready(unexplained),
    ));
    assert_eq!(refused.message, "embeddings are degraded");

    forward(orchestrator.backend_decided(
        LifecycleRequest::Chat,
        LifecycleDecision::Ready(backend),
    ));
}

#[test]
fn ready_decision_forwards_and_rewrites_model_alias() {
    let mut orchestrator = orchestrator(ready_status());
    let plan = forward(orchestrator.backend_decided(
        LifecycleRequest::Chat,
        LifecycleDecision::Ready(ready_status()),
    ));
    assert_eq!(plan.config.port, 18080);
    assert_eq!(plan.path, "/v1/chat/completions");
    assert_eq!(plan.model_alias, "proxy-model");

    let body = non_streaming_answer(
        &plan.path,
        200,
        "{\"model\":\"llama-3-8b\",\"choices\":[]}".to_string(),
        &plan.model_alias,
    )
    .unwrap();
    let json: serde_json::Value = serde_json::from_str(&body).unwrap();
    assert_eq!(json["model"], "proxy-model");

    let step = orchestrator.forward_finished(
        LifecycleRequest::Chat,
        ForwardOutcome::Answered,
        UnreachablePolicy::Rewake,
    );
    assert!(matches!(step, FlowStep::Relay));
    assert_eq!(orchestrator.state.metrics.snapshot().warm_requests, 1);
}

#[test]
fn ready_decision_embeddings_404_triggers_degradation_response() {
    let mut orchestrator = orchestrator(ready_status());
    let plan = forward(orchestrator.backend_decided(
        LifecycleRequest::Embeddings,
        LifecycleDecision::Ready(ready_status()),
    ));
    let error = non_streaming_answer(&plan.path, 404, String::new(), &plan.model_alias).unwrap_err();
    let refused = reply(orchestrator.forward_finished(
        LifecycleRequest::Embeddings,
        ForwardOutcome::Failed(error),
        UnreachablePolicy::Rewake,
    ));
    assert_eq!(refused.status, 400);
    assert_eq!(refused.code, "unsupported_embeddings");
    assert_eq!(
        refused.message,
        "upstream backend does not support embeddings: upstream returned 404"
    );
    assert_eq!(orchestrator.state.metrics.snapshot().embeddings_degraded, 1);

    let status = orchestrator.state.chat_lifecycle.status();
    assert_eq!(status.embeddings, CapabilityState::Degraded);
    let later = reply(orchestrator.backend_decided(
        LifecycleRequest::Embeddings,
        LifecycleDecision::Ready(status),
    ));
    assert_eq!(later.message, "upstream returned 404");
}

#[test]
fn ready_decision_forward_error_increments_forwarding_errors() {
    let mut orchestrator = orchestrator(ready_status());
    let plan = forward(orchestrator.backend_decided(
        LifecycleRequest::Chat,
        LifecycleDecision::Ready(ready_status()),
    ));
    let error =
        non_streaming_answer(&plan.path, 500, "boom".to_string(), &plan.model_alias).unwrap_err();
    assert!(matches!(&error, ForwardError::UpstreamError(500, text) if text == "boom"));
    let refused = reply(orchestrator.forward_finished(
        LifecycleRequest::Chat,
        ForwardOutcome::Failed(error),
        UnreachablePolicy::Rewake,
    ));
    assert_eq!(refused.status, 503);
    assert_eq!(refused.body()["error"]["type"], "upstream_error");
    assert_eq!(orchestrator.state.metrics.snapshot().forwarding_errors, 1);
}

#[test]
fn cancelled_forward_increments_forwarding_errors() {
    let mut orchestrator = orchestrator(ready_status());
    let refused = reply(orchestrator.forward_finished(
        LifecycleRequest::Chat,
        ForwardOutcome::Failed(ForwardError::Cancelled),
        UnreachablePolicy::Rewake,
    ));
    assert_eq!(refused.status, 503);
    assert_eq!(refused.code, "request_cancelled");
    assert_eq!(orchestrator.state.metrics.snapshot().forwarding_errors, 1);
}

#[test]
fn ready_decision_unreachable_backend_retries_and_returns_backend_unavailable() {
    let mut orchestrator = orchestrator(ready_status());
    let step = orchestrator.forward_finished(
        LifecycleRequest::Chat,
        ForwardOutcome::Failed(ForwardError::UpstreamUnreachable),
        UnreachablePolicy::Rewake,
    );
    assert!(matches!(step, FlowStep::EnsureAgain));
    let snapshot = orchestrator.state.metrics.snapshot();
    assert_eq!(snapshot.cold_starts, 1);
    assert_eq!(snapshot.wake_attempts, 1);
    assert_eq!(snapshot.forwarding_errors, 0);
    assert!(orchestrator.state.is_cold(LifecycleRequest::Chat));
    let again = orchestrator
        .state
        .lifecycle_for_mut(LifecycleRequest::Chat)
        .ensure_backend(LifecycleRequest::Chat);
    match again {
        EnsureStep::Observe(observation) => assert!(matches!(
            observation.ssh_probed(Ok(false)),
            ObservationStep::Wake { request: LifecycleRequest::Chat, .. }
        )),
        other => panic!("expected an observation, got {other:?}"),
    }

    let step = orchestrator.retry_decided(
        LifecycleRequest::Chat,
        LifecycleDecision::Ready(ready_status()),
    );
    match step {
        FlowStep::ForwardDirectly(plan) => assert_eq!(plan.path, "/v1/chat/completions"),
        other => panic!("expected the request to be forwarded, got {other:?}"),
    }
    let refused = reply(retry_finished(Err(ForwardError::UpstreamUnreachable)));
    assert_eq!(refused.status, 503);
    assert_eq!(refused.code, "backend_unavailable");
    assert!(refused.retry_after.is_none());
    assert!(matches!(retry_finished(Ok(())), FlowStep::Relay));
}

#[test]
fn unreachable_backend_can_be_reported_instead() {
    let mut orchestrator = orchestrator(ready_status());
    let refused = reply(orchestrator.forward_finished(
        LifecycleRequest::Chat,
        ForwardOutcome::Failed(ForwardError::UpstreamUnreachable),
        UnreachablePolicy::Report,
    ));
    assert_eq!(refused.status, 503);
    assert_eq!(refused.code, "backend_unavailable");
    assert!(refused.retry_after.is_none());
    assert_eq!(orchestrator.state.metrics.snapshot().forwarding_errors, 1);
    assert_eq!(
        orchestrator.state.chat_lifecycle.status().lifecycle,
        LifecycleState::Ready
    );
}

#[test]
fn ready_decision_retry_reports_warming() {
    let orchestrator = orchestrator(ready_status());
    let refused = reply(orchestrator.retry_decided(
        LifecycleRequest::Chat,
        LifecycleDecision::Warming {
            status: BackendStatus::default(),
            retry_after_secs: 5,
        },
    ));
    assert_eq!(refused.status, 503);
    assert_eq!(refused.retry_after.as_deref(), Some("5"));
    assert_eq!(refused.code, "warming_up");
    assert_eq!(orchestrator.state.metrics.snapshot().cold_starts, 0);
}

#[test]
fn ready_decision_retry_reports_failed() {
    let orchestrator = orchestrator(ready_status());
    let refused = reply(orchestrator.retry_decided(
        LifecycleRequest::Chat,
        LifecycleDecision::Failed {
            status: BackendStatus::default(),
            error: LifecycleError::new("ssh unreachable"),
        },
    ));
    assert_eq!(refused.status, 503);
    assert_eq!(refused.code, "backend_error");
    assert_eq!(refused.message, "ssh unreachable");
}

#[test]
fn tunnel_drop_increments_metric() {
    let mut orchestrator = orchestrator(ready_status());
    let dropped = BackendStatus {
        tunnel: TunnelState::Down,
        ..ready_status()
    };
    let mut see = |kind, status: &BackendStatus| {
        orchestrator.backend_decided(kind, LifecycleDecision::Ready(status.clone()));
        orchestrator.state.metrics.snapshot().tunnel_drops
    };
    assert_eq!(see(LifecycleRequest::Chat, &ready_status()), 0);
    assert_eq!(see(LifecycleRequest::Embeddings, &dropped), 0);
    assert_eq!(see(LifecycleRequest::Chat, &dropped), 1);
    assert_eq!(see(LifecycleRequest::Chat, &dropped), 1);
}

#[test]
fn warm_queue_full_returns_overloaded_429() {
    let mut orchestrator = orchestrator(ready_status());
    let refused = reply(orchestrator.forward_finished(
        LifecycleRequest::Chat,
        ForwardOutcome::NotRun(WarmExecutionError::QueueFull),
        UnreachablePolicy::Rewake,
    ));
    assert_eq!(refused.status, 429);
    assert_eq!(refused.code, "overloaded");
    assert_eq!(refused.message, "warm execution queue is full");
    assert_eq!(orchestrator.state.metrics.snapshot().queue_full_rejections, 1);
}

#[test]
fn warm_queue_timeout_returns_overloaded_429() {
    let mut orchestrator = orchestrator(ready_status());
    let refused = reply(orchestrator.forward_finished(
        LifecycleRequest::Chat,
        ForwardOutcome::NotRun(WarmExecutionError::QueueTimeout),
        UnreachablePolicy::Rewake,
    ));
    assert_eq!(refused.status, 429);
    assert_eq!(refused.code, "overloaded");
    assert_eq!(orchestrator.state.metrics.snapshot().queue_timeouts, 1);
}
