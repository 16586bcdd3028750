use std::time::Duration;

use serde_json::Value;

use llm_wake_proxy::app::{
    content_type_error, health_document, normalize_json_error, ChatCompletionRequest, ChatMessage,
    EmbeddingsRequest, ToolCall,
};
use llm_wake_proxy::config::{
    AppConfig, EmbeddingsBackendConfig, EmbeddingsConfig, HostConfig, ModelConfig,
    WarmExecutionConfig,
};
use llm_wake_proxy::helper::Target;
use llm_wake_proxy::http_error::{openai_error, ErrorReply};
use llm_wake_proxy::json::document_text;
use llm_wake_proxy::forward::ForwardError;
use llm_wake_proxy::lifecycle::{
    BackendStatus, CapabilityState, LifecycleDecision, LifecycleError, LifecycleManager,
    LifecycleRequest, LifecycleState, Timestamp, TunnelState, UnitState,
};
use llm_wake_proxy::orchestrate::{FlowStep, ForwardOutcome, Orchestrator, UnreachablePolicy};
use llm_wake_proxy::scheduler::{Admission, QueueOutcome, WarmExecutionError};
use llm_wake_proxy::state::{AppState, ProductionServices};
use llm_wake_proxy::table::TextTable;

fn test_config() -> AppConfig {
    AppConfig {
        listen_port: 3000,
        model: ModelConfig {
            alias: "proxy-model".to_string(),
            provider_id: "llama.cpp".to_string(),
            owned_by: "test-suite".to_string(),
        },
        embeddings: EmbeddingsConfig {
            enabled: true,
            backend: None,
        },
        warm_execution: WarmExecutionConfig::default(),
        host: HostConfig {
            host: "192.168.1.100".to_string(),
            ssh_user: "test-user".to_string(),
            ssh_port: 22,
            wol_mac: [0xAA, 0xBB, 0xCC, 0xDD, 0xEE, 0xFF],
            wol_broadcast: "255.255.255.255".to_string(),
            wol_port: 9,
            helper_path: "/usr/local/bin/llm-wake-proxy-helper".to_string(),
            model_path: "/models/test-model.gguf".to_string(),
            ssh_key_path: "~/.ssh/ssh-privatekey".to_string(),
            tunnel_local_port: 18080,
            remote_port: 8080,
        },
        cold_start_max_waiting: 32,
    }
}

fn test_state() -> Orchestrator {
    Orchestrator::new(AppState::new(test_config(), &TextTable::new()))
}

fn with_status(status: BackendStatus) -> Orchestrator {
    let lifecycle = LifecycleManager::new(status, &TextTable::new());
    Orchestrator::new(AppState::with_lifecycle(test_config(), lifecycle))
}

fn message(role: &str, content: &str) -> ChatMessage {
    ChatMessage {
        role: role.to_string(),
        content: Some(Value::from(content)),
        tool_calls: None,
        tool_call_id: None,
    }
}

fn call() -> ToolCall {
    ToolCall {
        id: "call_1".to_string(),
        name: "lookup".to_string(),
        arguments: "{}".to_string(),
    }
}

fn chat(messages: Vec<ChatMessage>) -> Result<ChatCompletionRequest, String> {
    Ok(ChatCompletionRequest {
        model: "proxy-model".to_string(),
        stream: false,
        messages,
    })
}

fn refused(messages: Vec<ChatMessage>) -> ErrorReply {
    test_state().chat_completions(chat(messages)).unwrap_err()
}

fn not_parsed(message: &str) -> ErrorReply {
    test_state().chat_completions(Err(message.to_string())).unwrap_err()
}

#[test]
fn healthz_returns_ok() {
    assert_eq!(document_text(&health_document()), r#"{"status":"ok"}"#);
}

#[test]
fn models_returns_configured_alias_without_waking_backend() {
    let state = test_state();
    let models = state.models_document();
    assert_eq!(
        document_text(&models),
        concat(&[
            r#"{"data":[{"created":0,"id":"proxy-model","object":"model","#,
            r#""owned_by":"test-suite","provider":"llama.cpp"}],"object":"list"}"#,
        ])
    );
    assert_eq!(state.state.chat_lifecycle.status().lifecycle, LifecycleState::Cold);
}

fn concat(parts: &[&str]) -> String {
    parts.join("")
}

#[test]
fn chat_unknown_model_returns_bad_request() {
    let mut state = test_state();
    let reply = state
        .chat_completions(Ok(ChatCompletionRequest {
            model: "wrong".to_string(),
            stream: true,
            messages: vec![message("user", "hi")],
        }))
        .unwrap_err();
    assert_eq!(reply.status, 400);
    assert_eq!(reply.code, "invalid_request_error");
    assert_eq!(reply.message, "unsupported model 'wrong': expected 'proxy-model'");
    assert_eq!(state.state.metrics.snapshot().chat_requests, 1);
}

#[test]
fn chat_rejects_empty_messages() {
    let reply = refused(vec![]);
    assert_eq!(reply.status, 400);
    assert_eq!(reply.message, "messages must not be empty");
}

#[test]
fn chat_rejects_unknown_top_level_field() {
    let reply = not_parsed(
        "unknown field `temperature`, expected one of `model`, `stream`, `messages`, `tools`, `tool_choice` at line 1 column 36",
    );
    assert_eq!(reply.status, 400);
    let json = reply.body();
    assert_eq!(json["error"]["type"], "invalid_request_error");
    assert_eq!(json["error"]["message"], "unsupported field 'temperature'");
}

#[test]
fn chat_rejects_unknown_message_field() {
    let reply = not_parsed(
        "unknown field `name`, expected one of `role`, `content`, `tool_calls`, `tool_call_id` at line 1 column 60",
    );
    assert_eq!(reply.status, 400);
    assert_eq!(reply.body()["error"]["message"], "unsupported field 'name'");
}

#[test]
fn chat_rejects_null_assistant_content_without_tool_calls() {
    for content in [None, Some(Value::Null)] {
        let reply = refused(vec![ChatMessage { content, ..message("assistant", "") }]);
        assert_eq!(reply.status, 400);
        assert_eq!(reply.message, "message content must not be null");
    }
}

#[test]
fn chat_accepts_tool_calling_fields_and_null_assistant_content() {
    let taken = test_state().chat_completions(chat(vec![
        message("user", "hi"),
        ChatMessage {
            content: Some(Value::Null),
            tool_calls: Some(vec![call()]),
            ..message("assistant", "")
        },
        ChatMessage {
            tool_call_id: Some("call_1".to_string()),
            ..message("tool", "{}")
        },
        message("system", "s"),
        message("developer", "d"),
    ]));
    assert_eq!(taken.unwrap(), false);
}

#[test]
fn chat_streams_where_that_is_asked_for() {
    let mut request = chat(vec![message("user", "hi")]).unwrap();
    request.stream = true;
    assert_eq!(test_state().chat_completions(Ok(request)).unwrap(), true);
}

#[test]
fn chat_rejects_tool_message_without_tool_call_id() {
    let reply = refused(vec![message("tool", "{}")]);
    assert_eq!(reply.status, 400);
    assert_eq!(reply.body()["error"]["message"], "tool messages must include tool_call_id");
}

#[test]
fn chat_rejects_tool_message_without_content() {
    let reply = refused(vec![ChatMessage {
        content: None,
        tool_call_id: Some("call_1".to_string()),
        ..message("tool", "")
    }]);
    assert_eq!(reply.message, "message content must not be null");
}

#[test]
fn chat_rejects_invalid_tool_calls_shape() {
    let reply = not_parsed(
        "invalid type: string \"bad\", expected a sequence at line 1 column 86",
    );
    assert_eq!(reply.status, 400);
    assert_eq!(
        reply.body()["error"]["message"],
        "request body contains an invalid field type"
    );
}

#[test]
fn chat_rejects_invalid_tool_choice_shape() {
    let reply =
        not_parsed("data did not match any variant of untagged enum ToolChoice at line 1 column 86");
    assert_eq!(reply.status, 400);
    assert_eq!(reply.body()["error"]["message"], "request body contains invalid fields");
}

#[test]
fn chat_rejects_invalid_tool_choice_value() {
    let reply =
        not_parsed("data did not match any variant of untagged enum ToolChoice at line 1 column 91");
    assert_eq!(reply.status, 400);
    assert_eq!(reply.body()["error"]["message"], "request body contains invalid fields");
}

#[test]
fn chat_rejects_invalid_tool_type() {
    let reply = not_parsed("unknown variant `custom`, expected `function` at line 1 column 99");
    assert_eq!(reply.body()["error"]["message"], "request body contains invalid fields");
}

#[test]
fn chat_rejects_empty_assistant_tool_calls() {
    let reply = refused(vec![ChatMessage {
        content: Some(Value::Null),
        tool_calls: Some(vec![]),
        ..message("assistant", "")
    }]);
    assert_eq!(reply.status, 400);
    assert_eq!(
        reply.body()["error"]["message"],
        "assistant messages tool_calls must not be empty"
    );
}

#[test]
fn chat_rejects_tool_calls_on_user_message() {
    for role in ["user", "tool"] {
        let reply = refused(vec![ChatMessage {
            tool_calls: Some(vec![]),
            ..message(role, "hi")
        }]);
        assert_eq!(
            reply.body()["error"]["message"],
            "only assistant messages may include tool_calls"
        );
    }
}

#[test]
fn chat_rejects_tool_call_id_on_assistant_message() {
    for role in ["assistant", "user"] {
        let reply = refused(vec![ChatMessage {
            tool_call_id: Some("call_1".to_string()),
            ..message(role, "hi")
        }]);
        assert_eq!(
            reply.body()["error"]["message"],
            "only tool messages may include tool_call_id"
        );
    }
}

#[test]
fn chat_rejects_unknown_roles_before_bad_content() {
    let reply = refused(vec![
        ChatMessage { content: None, ..message("user", "") },
        message("wizard", "hi"),
        message("witch", "hi"),
    ]);
    assert_eq!(reply.status, 400);
    assert_eq!(reply.code, "unsupported_role");
    assert_eq!(reply.message, "unsupported message role 'wizard'");
}

#[test]
fn chat_rejects_missing_json_content_type_with_stable_message() {
    for content_type in [None, Some("text/plain"), Some("application/jso")] {
        let reply = content_type_error(content_type).unwrap();
        assert_eq!(reply.status, 400);
        assert_eq!(
            reply.body()["error"]["message"],
            "content-type must be application/json"
        );
    }
    assert!(content_type_error(Some("application/json")).is_none());
    assert!(content_type_error(Some("application/json; charset=utf-8")).is_none());
}

#[test]
fn messages_of_the_parser_are_put_in_other_words() {
    for (message, expected) in [
        ("missing field `tool_call_id` at line 1", "tool messages must include tool_call_id"),
        (
            "missing field `content` at line 1",
            "messages must include content unless assistant tool_calls are present",
        ),
        ("missing field `model` at line 1", "request body contains invalid fields"),
        ("unknown variant `x`, invalid type", "request body contains invalid fields"),
        ("EOF while parsing a value", "request body contains invalid fields"),
        ("unknown field `open", "request body contains invalid fields"),
        ("unknown field ``", "unsupported field ''"),
        ("a unknown field `b` unknown field `c`", "unsupported field 'b'"),
    ] {
        assert_eq!(normalize_json_error(message), expected);
    }
}

#[test]
fn embeddings_reject_null_input() {
    let mut state = test_state();
    let reply = state
        .embeddings(Ok(EmbeddingsRequest {
            model: "proxy-model".to_string(),
            input: Value::Null,
        }))
        .unwrap_err();
    assert_eq!(reply.status, 400);
    assert_eq!(reply.message, "input must not be null");
    assert_eq!(state.state.metrics.snapshot().embeddings_requests, 1);
    assert_eq!(state.state.metrics.snapshot().chat_requests, 0);
}

#[test]
fn embeddings_can_be_disabled_independently() {
    let mut config = test_config();
    config.embeddings.enabled = false;
    let mut state = Orchestrator::new(AppState::new(config, &TextTable::new()));
    let request = || EmbeddingsRequest {
        model: "proxy-model".to_string(),
        input: Value::from("hello"),
    };
    let reply = state.embeddings(Ok(request())).unwrap_err();
    assert_eq!(reply.status, 400);
    assert_eq!(reply.code, "unsupported_embeddings");
    assert_eq!(reply.message, "embeddings are disabled by configuration");
    assert!(state.chat_completions(chat(vec![message("user", "hi")])).is_ok());
    assert!(test_state().embeddings(Ok(request())).is_ok());
}

#[test]
fn embeddings_reject_unknown_field() {
    let reply = test_state()
        .embeddings(Err(
            "unknown field `encoding_format`, expected `model` or `input` at line 1 column 56"
                .to_string(),
        ))
        .unwrap_err();
    assert_eq!(reply.status, 400);
    assert_eq!(reply.body()["error"]["message"], "unsupported field 'encoding_format'");
}

#[test]
fn embeddings_reject_unknown_model() {
    let reply = test_state()
        .embeddings(Ok(EmbeddingsRequest {
            model: "other".to_string(),
            input: Value::from("hi"),
        }))
        .unwrap_err();
    assert_eq!(reply.message, "unsupported model 'other': expected 'proxy-model'");
}

fn chat_hi() -> Result<ChatCompletionRequest, String> {
    chat(vec![message("user", "hi")])
}

fn embeddings_hello() -> Result<EmbeddingsRequest, String> {
    Ok(EmbeddingsRequest {
        model: "proxy-model".to_string(),
        input: Value::from("hello"),
    })
}

fn ready() -> BackendStatus {
    BackendStatus {
        lifecycle: LifecycleState::Ready,
        tunnel: TunnelState::Ready,
        ..BackendStatus::default()
    }
}

fn reply_of(step: FlowStep) -> ErrorReply {
    match step {
        FlowStep::Reply(reply) => reply,
        other => panic!("expected a reply, got {other:?}"),
    }
}

#[test]
fn chat_warming_decision_maps_to_retryable_503() {
    let status = BackendStatus {
        lifecycle: LifecycleState::Warming,
        tunnel: TunnelState::Down,
        ..BackendStatus::default()
    };
    let mut state = with_status(status.clone());
    assert!(state.chat_completions(chat_hi()).is_ok());
    assert!(state.acquire_cold_permit(LifecycleRequest::Chat).unwrap().is_none());
    let reply = reply_of(state.backend_decided(
        LifecycleRequest::Chat,
        LifecycleDecision::Warming { status, retry_after_secs: 10 },
    ));
    assert_eq!(reply.status, 503);
    assert_eq!(reply.retry_after.as_deref(), Some("10"));
    assert_eq!(reply.body()["error"]["type"], "warming_up");
}

#[test]
fn chat_ready_decision_maps_to_backend_unavailable_without_retry_after() {
    let mut state = with_status(ready());
    assert!(state.chat_completions(chat_hi()).is_ok());
    let step = state.backend_decided(LifecycleRequest::Chat, LifecycleDecision::Ready(ready()));
    assert!(matches!(step, FlowStep::Forward(_)));
    let reply = reply_of(state.forward_finished(
        LifecycleRequest::Chat,
        ForwardOutcome::Failed(ForwardError::UpstreamUnreachable),
        UnreachablePolicy::Report,
    ));
    assert_eq!(reply.status, 503);
    assert!(reply.retry_after.is_none());
    assert_eq!(reply.body()["error"]["type"], "backend_unavailable");
}

#[test]
fn embeddings_failed_decision_maps_to_backend_error() {
    let status = BackendStatus {
        lifecycle: LifecycleState::Error,
        ..BackendStatus::default()
    };
    let mut state = with_status(status.clone());
    assert!(state.embeddings(embeddings_hello()).is_ok());
    let reply = reply_of(state.backend_decided(
        LifecycleRequest::Embeddings,
        LifecycleDecision::Failed {
            status,
            error: LifecycleError::new("helper command failed"),
        },
    ));
    assert_eq!(reply.status, 503);
    assert!(reply.retry_after.is_none());
    let json = reply.body();
    assert_eq!(json["error"]["type"], "backend_error");
    assert_eq!(json["error"]["message"], "helper command failed");
}

fn one_slot(max_queued_requests: usize) -> Orchestrator {
    let config = AppConfig {
        warm_execution: WarmExecutionConfig {
            max_active_requests: 1,
            max_queued_requests,
            queue_timeout: Duration::from_millis(20),
        },
        ..test_config()
    };
    let lifecycle = LifecycleManager::new(ready(), &TextTable::new());
    Orchestrator::new(AppState::with_lifecycle(config, lifecycle))
}

/// Waits for a slot as long as the scheduler says, and gives the answer to the client.
fn wait_in_queue(state: &mut Orchestrator, kind: LifecycleRequest) -> ErrorReply {
    let step = state.backend_decided(kind, LifecycleDecision::Ready(ready()));
    assert!(matches!(step, FlowStep::Forward(_)));
    let ticket = match state.state.scheduler.begin() {
        Admission::Queued(ticket) => ticket,
        other => panic!("expected a place in the queue, got {other:?}"),
    };
    let wait = state.state.scheduler.queue_wait();
    assert_eq!(wait, Duration::from_millis(20));
    let semaphore = state.state.scheduler.semaphore.clone();
    let runtime = tokio::runtime::Builder::new_current_thread().enable_time().build().unwrap();
    let outcome = runtime.block_on(async {
        match tokio::time::timeout(wait, semaphore.acquire_owned()).await {
            Ok(Ok(permit)) => QueueOutcome::Granted(permit),
            Ok(Err(_)) => QueueOutcome::Closed,
            Err(_) => QueueOutcome::TimedOut,
        }
    });
    let error = match state.state.scheduler.queue_left(ticket, outcome) {
        Admission::Rejected(error) => error,
        other => panic!("expected a rejection, got {other:?}"),
    };
    assert_eq!(error, WarmExecutionError::QueueTimeout);
    reply_of(state.forward_finished(kind, ForwardOutcome::NotRun(error), UnreachablePolicy::Report))
}

#[test]
fn ready_embeddings_request_times_out_in_shared_warm_queue_with_429() {
    let mut state = one_slot(1);
    let held = state.state.scheduler.begin();
    assert!(matches!(held, Admission::Run(_)));

    assert!(state.embeddings(embeddings_hello()).is_ok());
    let reply = wait_in_queue(&mut state, LifecycleRequest::Embeddings);
    assert_eq!(reply.status, 429);
    let json = reply.body();
    assert_eq!(json["error"]["type"], "overloaded");
    assert_eq!(
        json["error"]["message"],
        "request did not start before the warm queue timeout"
    );

    drop(held);
    assert!(matches!(state.state.scheduler.begin(), Admission::Run(_)));
}

#[test]
fn ready_chat_request_times_out_in_shared_warm_queue_with_429() {
    let mut state = one_slot(1);
    let held = state.state.scheduler.begin();
    assert!(matches!(held, Admission::Run(_)));

    assert!(state.chat_completions(chat_hi()).is_ok());
    let reply = wait_in_queue(&mut state, LifecycleRequest::Chat);
    assert_eq!(reply.status, 429);
    assert_eq!(reply.body()["error"]["type"], "overloaded");
    drop(held);
}

#[test]
fn ready_chat_request_hits_immediate_shared_queue_full_with_429() {
    let mut state = one_slot(0);
    let held = state.state.scheduler.begin();
    assert!(matches!(held, Admission::Run(_)));

    assert!(state.chat_completions(chat_hi()).is_ok());
    let step = state.backend_decided(LifecycleRequest::Chat, LifecycleDecision::Ready(ready()));
    assert!(matches!(step, FlowStep::Forward(_)));
    let error = match state.state.scheduler.begin() {
        Admission::Rejected(error) => error,
        other => panic!("expected a rejection, got {other:?}"),
    };
    let reply = reply_of(state.forward_finished(
        LifecycleRequest::Chat,
        ForwardOutcome::NotRun(error),
        UnreachablePolicy::Report,
    ));
    assert_eq!(reply.status, 429);
    let json = reply.body();
    assert_eq!(json["error"]["type"], "overloaded");
    assert_eq!(json["error"]["message"], "warm execution queue is full");
    drop(held);
}

#[test]
fn status_exposes_backend_shape() {
    let json = test_state().status_document();
    assert_eq!(json["state"], "cold");
    assert_eq!(json["model_alias"], "proxy-model");
    assert_eq!(json["capabilities"]["chat"], "ready");
    assert_eq!(json["capabilities"]["embeddings"], "ready");
    assert_eq!(json["capabilities"]["embeddings_reason"], Value::Null);
    assert_eq!(json["last_wake_attempt_at"], Value::Null);
    assert_eq!(json["metrics"].as_object().unwrap().len(), 11);
    assert_eq!(json["metrics"]["cold_starts"], 0);
}

#[test]
fn status_serializes_timestamps_tunnel_and_units() {
    let json = with_status(BackendStatus {
        lifecycle: LifecycleState::Ready,
        chat: CapabilityState::Degraded,
        embeddings: CapabilityState::Ready,
        embeddings_reason: Some("remote disabled".to_string()),
        tunnel: TunnelState::Ready,
        last_wake_attempt_at: Some(Timestamp::new(1717156800)),
        lease_expires_at: Some(Timestamp::new(1717158600)),
        llama_server_unit: UnitState::Active,
        inhibit_unit: UnitState::Activating,
    })
    .status_document();
    assert_eq!(json["state"], "ready");
    assert_eq!(json["capabilities"]["chat"], "degraded");
    assert_eq!(json["capabilities"]["embeddings_reason"], "remote disabled");
    assert_eq!(json["tunnel"], "ready");
    assert_eq!(json["host_unit"]["llama_server_unit"], "active");
    assert_eq!(json["host_unit"]["inhibit_unit"], "activating");
    assert_eq!(json["last_wake_attempt_at"], 1717156800u64);
    assert_eq!(json["lease_expires_at"], 1717158600u64);
}

#[test]
fn status_reads_from_orchestrator_snapshot_not_backend_lock() {
    let json = with_status(BackendStatus {
        lifecycle: LifecycleState::Warming,
        tunnel: TunnelState::Connecting,
        ..BackendStatus::default()
    })
    .status_document();
    assert_eq!(json["state"], "warming");
    assert_eq!(json["tunnel"], "connecting");
}

#[test]
fn states_have_their_names() {
    let json = with_status(BackendStatus {
        lifecycle: LifecycleState::Error,
        llama_server_unit: UnitState::Failed,
        inhibit_unit: UnitState::Inactive,
        ..BackendStatus::default()
    })
    .status_document();
    assert_eq!(json["state"], "error");
    assert_eq!(json["tunnel"], "down");
    assert_eq!(json["host_unit"]["llama_server_unit"], "failed");
    assert_eq!(json["host_unit"]["inhibit_unit"], "inactive");
}

#[test]
fn error_documents() {
    let reply = openai_error(503, "warming_up", "later \"please\"\n".to_string(), Some("10"));
    assert_eq!(reply.retry_after.as_deref(), Some("10"));
    assert_eq!(reply.to_text(), document_text(&reply.body()));
    assert_eq!(
        reply.to_text(),
        concat(&[
            r#"{"error":{"code":"warming_up","message":"later \"please\"\n","#,
            r#""param":null,"type":"warming_up"}}"#,
        ])
    );
}

#[test]
fn counters_wrap_around() {
    let mut state = test_state();
    state.state.metrics.chat_requests = u64::MAX;
    state.chat_completions(chat(vec![message("user", "hi")])).unwrap();
    assert_eq!(state.state.metrics.chat_requests, 0);
    assert_eq!(state.state.metrics.embeddings_requests, 0);
}

fn dual_config() -> AppConfig {
    let mut config = test_config();
    config.embeddings.backend = Some(EmbeddingsBackendConfig {
        alias: "embed".to_string(),
        provider_id: "llama.cpp".to_string(),
        owned_by: "test-suite".to_string(),
        model_path: "/models/embed.gguf".to_string(),
        tunnel_local_port: 18081,
        remote_port: 8081,
    });
    config
}

#[test]
fn shared_backend_serves_both_kinds() {
    let mut state = AppState::production(test_config(), &TextTable::new());
    assert!(state.embeddings_lifecycle.is_none());
    assert_eq!(state.model_alias_for(LifecycleRequest::Embeddings), "proxy-model");
    assert_eq!(state.tunnel_port_for(LifecycleRequest::Embeddings), 18080);
    state.lifecycle_for_mut(LifecycleRequest::Embeddings).mark_warming();
    assert!(!state.is_cold(LifecycleRequest::Chat));
    assert!(ProductionServices::new(&test_config()).embeddings.is_none());
}

#[test]
fn two_backends_are_independent() {
    let mut state = AppState::production(dual_config(), &TextTable::new());
    assert_eq!(state.model_alias_for(LifecycleRequest::Chat), "proxy-model");
    assert_eq!(state.model_alias_for(LifecycleRequest::Embeddings), "embed");
    assert_eq!(state.tunnel_port_for(LifecycleRequest::Chat), 18080);
    assert_eq!(state.tunnel_port_for(LifecycleRequest::Embeddings), 18081);
    state.lifecycle_for_mut(LifecycleRequest::Embeddings).mark_warming();
    assert!(state.is_cold(LifecycleRequest::Chat));
    assert!(!state.is_cold(LifecycleRequest::Embeddings));
    assert!(!state.check_tunnel_drop(LifecycleRequest::Embeddings, TunnelState::Ready));
    assert!(!state.check_tunnel_drop(LifecycleRequest::Chat, TunnelState::Down));
    assert!(state.check_tunnel_drop(LifecycleRequest::Embeddings, TunnelState::Connecting));
    assert!(!state.check_tunnel_drop(LifecycleRequest::Embeddings, TunnelState::Down));
}

#[test]
fn services_of_two_backends() {
    let services = ProductionServices::new(&dual_config());
    assert_eq!(services.wake.address(), "255.255.255.255:9");
    assert_eq!(services.ssh.address(), "192.168.1.100:22");
    assert_eq!(services.chat_helper.target, Target::Chat);
    assert_eq!(services.chat_helper.model_path, "/models/test-model.gguf");
    assert_eq!(services.chat_helper.model_alias, "proxy-model");
    assert_eq!(services.chat_tunnel.local_port, 18080);
    assert_eq!(services.chat_tunnel.remote_port, 8080);
    let (helper, tunnel) = services.embeddings.unwrap();
    assert_eq!(helper.target, Target::Embeddings);
    assert_eq!(helper.model_path, "/models/embed.gguf");
    assert_eq!(helper.model_alias, "embed");
    assert_eq!(helper.ssh_user, "test-user");
    assert_eq!(tunnel.local_port, 18081);
    assert_eq!(tunnel.remote_port, 8081);
}
