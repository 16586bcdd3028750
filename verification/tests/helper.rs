use std::sync::{Arc, Mutex};
use std::time::{Duration, Instant};

use llm_wake_proxy::helper::{
    parse_systemctl_output, server_probed, server_wait, EnsureStartedResponse, Helper,
    HelperConfig, HelperStatus, LeaseAcquireResponse, LeaseInspectResponse, LeaseReleaseResponse,
    ModelInfo, ServerCheck, ServerWait, StatusResponse, SystemdControl, Target, UnitInfo,
};
use llm_wake_proxy::table::TextTable;

fn wait_for_server<S: SystemdControl, H: ServerCheck>(
    helper: &Helper<S, H>,
    port: u16,
    timeout_secs: u64,
) -> bool {
    let deadline = Instant::now() + Duration::from_secs(timeout_secs);
    let mut step = server_wait(Instant::now() >= deadline);
    loop {
        step = match step {
            ServerWait::Probe => server_probed(helper.is_server_alive(port)),
            ServerWait::Pause(_) => server_wait(Instant::now() >= deadline),
            ServerWait::Ready => return true,
            ServerWait::GiveUp => return false,
        };
    }
}

#[test]
fn status_response_serializes_to_json() {
    let response = StatusResponse {
        status: HelperStatus::Okay,
        message: "current host unit state".to_string(),
        llama_server: Some(UnitInfo {
            unit_name: "llama-server".to_string(),
            active_state: "active".to_string(),
            sub_state: "running".to_string(),
            description: "llama.cpp server".to_string(),
        }),
        inhibit_holder: Some(UnitInfo {
            unit_name: "llm-wake-proxy-inhibit".to_string(),
            active_state: "active".to_string(),
            sub_state: "running".to_string(),
            description: "Inhibit holder for llm-wake-proxy".to_string(),
        }),
        active_model: Some(ModelInfo {
            model_alias: "llama-3.2-3b".to_string(),
            model_path: "/models/llama-3.2-3b.Q4_K_M.gguf".to_string(),
            serving: true,
            ready: true,
            reported_id: Some("/models/llama-3.2-3b.Q4_K_M.gguf".to_string()),
        }),
        llama_server_embeddings: None,
        active_model_embeddings: None,
    };

    let json = response.to_json();
    assert_eq!(json["status"], "ok");
    assert_eq!(json["llama_server"]["unit_name"], "llama-server");
    assert_eq!(json["llama_server"]["active_state"], "active");
    assert_eq!(json["active_model"]["model_alias"], "llama-3.2-3b");
    assert_eq!(
        json["active_model"]["reported_id"],
        "/models/llama-3.2-3b.Q4_K_M.gguf"
    );
}

#[test]
fn status_response_handles_missing_units() {
    let response = StatusResponse {
        status: HelperStatus::Okay,
        message: "current host unit state".to_string(),
        llama_server: None,
        inhibit_holder: None,
        active_model: None,
        llama_server_embeddings: None,
        active_model_embeddings: None,
    };

    let json = response.to_json();
    assert_eq!(json["llama_server"], serde_json::Value::Null);
    assert_eq!(json["active_model"], serde_json::Value::Null);
}

#[test]
fn ensure_started_ok_serializes_to_json() {
    let response = EnsureStartedResponse {
        status: HelperStatus::Okay,
        message: "model is already running and ready".to_string(),
        model_alias: "llama-3.2-3b".to_string(),
        model_path: "/models/llama-3.2-3b.Q4_K_M.gguf".to_string(),
        startup_triggered: false,
        server_ready: true,
        model_verified: true,
        llama_server: Some(UnitInfo {
            unit_name: "llama-server".to_string(),
            active_state: "active".to_string(),
            sub_state: "running".to_string(),
            description: "llama.cpp server".to_string(),
        }),
    };

    let json = response.to_json();
    assert_eq!(json["status"], "ok");
    assert_eq!(json["model_alias"], "llama-3.2-3b");
    assert_eq!(json["startup_triggered"], false);
    assert_eq!(json["server_ready"], true);
    assert_eq!(json["model_verified"], true);
    assert_eq!(json["llama_server"]["active_state"], "active");
}

#[test]
fn ensure_started_mismatch_serializes_to_json() {
    let response = EnsureStartedResponse {
        status: HelperStatus::Mismatch,
        message: "expected model path '/models/a.gguf', but server reports '/models/b.gguf'"
            .to_string(),
        model_alias: "model-a".to_string(),
        model_path: "/models/a.gguf".to_string(),
        startup_triggered: false,
        server_ready: true,
        model_verified: false,
        llama_server: Some(UnitInfo {
            unit_name: "llama-server".to_string(),
            active_state: "active".to_string(),
            sub_state: "running".to_string(),
            description: String::new(),
        }),
    };

    let json = response.to_json();
    assert_eq!(json["status"], "mismatch");
    assert_eq!(json["model_verified"], false);
    assert_eq!(json["server_ready"], true);
    assert_eq!(json["model_alias"], "model-a");
}

#[test]
fn ensure_started_error_serializes_to_json() {
    let response = EnsureStartedResponse {
        status: HelperStatus::Error,
        message: "failed to start llama-server: exit code 1".to_string(),
        model_alias: "llama-3.2-3b".to_string(),
        model_path: "/models/llama-3.2-3b.gguf".to_string(),
        startup_triggered: true,
        server_ready: false,
        model_verified: false,
        llama_server: Some(UnitInfo {
            unit_name: "llama-server".to_string(),
            active_state: "failed".to_string(),
            sub_state: "startup_error".to_string(),
            description: String::new(),
        }),
    };

    let json = response.to_json();
    assert_eq!(json["status"], "error");
    assert_eq!(json["startup_triggered"], true);
    assert_eq!(json["llama_server"]["active_state"], "failed");
}

#[test]
fn ensure_started_error_with_null_llama_server() {
    let response = EnsureStartedResponse {
        status: HelperStatus::Error,
        message: "model identity check failed: connection refused".to_string(),
        model_alias: "test-model".to_string(),
        model_path: "/models/test.gguf".to_string(),
        startup_triggered: true,
        server_ready: false,
        model_verified: false,
        llama_server: None,
    };

    let json = response.to_json();
    assert_eq!(json["llama_server"], serde_json::Value::Null);
}

#[test]
fn parses_systemctl_show_output() {
    let output = b"ActiveState=active\nSubState=running\nDescription=llama.cpp server\n";
    let map = parse_systemctl_output(output).unwrap();
    assert_eq!(map.get("ActiveState").unwrap(), "active");
    assert_eq!(map.get("SubState").unwrap(), "running");
    assert_eq!(map.get("Description").unwrap(), "llama.cpp server");
}

#[test]
fn parses_systemctl_output_with_empty_values() {
    let output = b"ActiveState=inactive\nSubState=dead\nDescription=\n";
    let map = parse_systemctl_output(output).unwrap();
    assert_eq!(map.get("ActiveState").unwrap(), "inactive");
    assert_eq!(map.get("Description").unwrap(), "");
}

#[test]
fn helper_config_defaults() {
    let config = HelperConfig::default();
    assert_eq!(config.llama_server_unit, "llama-server");
    assert_eq!(config.inhibit_holder_unit, "llm-wake-proxy-inhibit");
    assert_eq!(config.llama_server_port, 8080);
    assert_eq!(
        config.llama_server_embeddings_unit,
        "llama-server-embeddings"
    );
    assert_eq!(config.llama_server_embeddings_port, 8081);
    assert_eq!(config.server_start_timeout_secs, 60);
}

#[test]
fn helper_config_unit_for_and_port_for() {
    let config = HelperConfig::default();
    assert_eq!(config.unit_for(Target::Chat), "llama-server");
    assert_eq!(
        config.unit_for(Target::Embeddings),
        "llama-server-embeddings"
    );
    assert_eq!(config.port_for(Target::Chat), 8080);
    assert_eq!(config.port_for(Target::Embeddings), 8081);
}

#[test]
fn target_as_str_and_from_str() {
    assert_eq!(Target::Chat.as_str(), "chat");
    assert_eq!(Target::Embeddings.as_str(), "embeddings");
    assert_eq!("chat".parse::<Target>(), Ok(Target::Chat));
    assert_eq!("embeddings".parse::<Target>(), Ok(Target::Embeddings));
    assert!("bogus".parse::<Target>().is_err());
}

#[test]
fn ensure_started_with_already_active_server() {
    let config = HelperConfig {
        server_start_timeout_secs: 1,
        ..HelperConfig::default()
    };

    struct ReadySystemd;

    impl SystemdControl for ReadySystemd {
        fn show_unit(&self, unit: &str) -> Result<TextTable, String> {
            let mut map = TextTable::new();
            map.insert("ActiveState".to_string(), "active".to_string());
            map.insert("SubState".to_string(), "running".to_string());
            map.insert("Description".to_string(), format!("{unit} unit"));
            Ok(map)
        }
        fn is_active(&self, _unit: &str) -> Result<bool, String> {
            Ok(true)
        }
        fn start_unit(&self, _unit: &str) -> Result<(), String> {
            Ok(())
        }
    }

    struct ReadyServer;

    impl ServerCheck for ReadyServer {
        fn get_text(&self, _url: &str) -> Result<String, String> {
            Ok(r#"{"object":"list","data":[{"id":"/models/llama-3.2-3b.Q4_K_M.gguf","object":"model","created":1717156800,"owned_by":"llama.cpp"}]}"#.to_string())
        }
    }

    let helper = Helper::with_services(config, Box::new(ReadySystemd), Box::new(ReadyServer));

    let response = helper.ensure_started(
        Target::Chat,
        "llama-3.2-3b",
        "/models/llama-3.2-3b.Q4_K_M.gguf",
        |port, secs| wait_for_server(&helper, port, secs),
    );

    assert_eq!(response.status, HelperStatus::Okay);
    assert!(!response.startup_triggered);
    assert!(response.server_ready);
    assert!(response.model_verified);
    assert_eq!(response.message, "model is already running and ready");
}

#[test]
fn ensure_started_starts_inactive_server_and_verifies_model() {
    let config = HelperConfig {
        server_start_timeout_secs: 1,
        ..HelperConfig::default()
    };

    struct StartOnDemandSystemd {
        active: Arc<Mutex<bool>>,
    }

    impl SystemdControl for StartOnDemandSystemd {
        fn show_unit(&self, unit: &str) -> Result<TextTable, String> {
            let mut map = TextTable::new();
            let active = *self.active.lock().unwrap();
            map.insert(
                "ActiveState".to_string(),
                if active { "active" } else { "inactive" }.to_string(),
            );
            map.insert(
                "SubState".to_string(),
                if active { "running" } else { "dead" }.to_string(),
            );
            map.insert("Description".to_string(), format!("{unit} unit"));
            Ok(map)
        }
        fn is_active(&self, _unit: &str) -> Result<bool, String> {
            let active = *self.active.lock().unwrap();
            Ok(active)
        }
        fn start_unit(&self, _unit: &str) -> Result<(), String> {
            *self.active.lock().unwrap() = true;
            Ok(())
        }
    }

    struct DelayedServer {
        ready: Arc<Mutex<bool>>,
        call_count: Arc<Mutex<u32>>,
    }

    impl ServerCheck for DelayedServer {
        fn get_text(&self, _url: &str) -> Result<String, String> {
            let mut count = self.call_count.lock().unwrap();
            *count += 1;
            if *count > 1 {
                *self.ready.lock().unwrap() = true;
            }
            if *self.ready.lock().unwrap() {
                Ok(r#"{"object":"list","data":[{"id":"/models/llama-3.2-3b.Q4_K_M.gguf","object":"model","created":1717156800,"owned_by":"llama.cpp"}]}"#.to_string())
            } else {
                Err("connection refused".to_string())
            }
        }
    }

    let active = Arc::new(Mutex::new(false));
    let ready = Arc::new(Mutex::new(false));
    let call_count = Arc::new(Mutex::new(0u32));

    let helper = Helper::with_services(
        config,
        Box::new(StartOnDemandSystemd {
            active: active.clone(),
        }),
        Box::new(DelayedServer {
            ready: ready.clone(),
            call_count: call_count.clone(),
        }),
    );

    let response = helper.ensure_started(
        Target::Chat,
        "llama-3.2-3b",
        "/models/llama-3.2-3b.Q4_K_M.gguf",
        |port, secs| wait_for_server(&helper, port, secs),
    );

    assert_eq!(response.status, HelperStatus::Okay);
    assert!(response.startup_triggered);
    assert!(response.server_ready);
    assert!(response.model_verified);
    assert_eq!(response.message, "model started and verified successfully");
}

#[test]
fn ensure_started_detects_model_mismatch() {
    let config = HelperConfig {
        server_start_timeout_secs: 1,
        ..HelperConfig::default()
    };

    struct MismatchSystemd;

    impl SystemdControl for MismatchSystemd {
        fn show_unit(&self, unit: &str) -> Result<TextTable, String> {
            let mut map = TextTable::new();
            map.insert("ActiveState".to_string(), "active".to_string());
            map.insert("SubState".to_string(), "running".to_string());
            map.insert("Description".to_string(), format!("{unit} unit"));
            Ok(map)
        }
        fn is_active(&self, _unit: &str) -> Result<bool, String> {
            Ok(true)
        }
        fn start_unit(&self, _unit: &str) -> Result<(), String> {
            Ok(())
        }
    }

    struct WrongModelServer;

    impl ServerCheck for WrongModelServer {
        fn get_text(&self, _url: &str) -> Result<String, String> {
            Ok(r#"{"object":"list","data":[{"id":"/models/llama-3.1-8b.Q4_K_M.gguf","object":"model","created":1717156800,"owned_by":"llama.cpp"}]}"#.to_string())
        }
    }

    let helper = Helper::with_services(
        config,
        Box::new(MismatchSystemd),
        Box::new(WrongModelServer),
    );

    let response = helper.ensure_started(
        Target::Chat,
        "llama-3.2-3b",
        "/models/llama-3.2-3b.Q4_K_M.gguf",
        |port, secs| wait_for_server(&helper, port, secs),
    );

    assert_eq!(response.status, HelperStatus::Mismatch);
    assert!(response.server_ready);
    assert!(!response.model_verified);
    assert!(response.message.contains("mismatch") || response.message.contains("expected"));
}

#[test]
fn ensure_started_reports_startup_failure() {
    let config = HelperConfig::default();

    struct FailingSystemd;

    impl SystemdControl for FailingSystemd {
        fn show_unit(&self, unit: &str) -> Result<TextTable, String> {
            let mut map = TextTable::new();
            map.insert("ActiveState".to_string(), "failed".to_string());
            map.insert("SubState".to_string(), "failed".to_string());
            map.insert("Description".to_string(), format!("{unit} unit"));
            Ok(map)
        }
        fn is_active(&self, _unit: &str) -> Result<bool, String> {
            Ok(false)
        }
        fn start_unit(&self, _unit: &str) -> Result<(), String> {
            Err("unit failed to start: exit code 1".to_string())
        }
    }

    struct UnusedServer;

    impl ServerCheck for UnusedServer {
        fn get_text(&self, _url: &str) -> Result<String, String> {
            Err("should not be called".to_string())
        }
    }

    let helper =
        Helper::with_services(config, Box::new(FailingSystemd), Box::new(UnusedServer));

    let response = helper.ensure_started(
        Target::Chat,
        "test-model",
        "/models/test.gguf",
        |port, secs| wait_for_server(&helper, port, secs),
    );

    assert_eq!(response.status, HelperStatus::Error);
    assert!(!response.startup_triggered);
    assert!(!response.server_ready);
    assert!(response.message.contains("failed to start"));
}

#[test]
fn ensure_started_reports_timeout_when_server_never_ready() {
    let config = HelperConfig {
        server_start_timeout_secs: 0,
        ..HelperConfig::default()
    };

    struct StuckSystemd;

    impl SystemdControl for StuckSystemd {
        fn show_unit(&self, unit: &str) -> Result<TextTable, String> {
            let mut map = TextTable::new();
            map.insert("ActiveState".to_string(), "activating".to_string());
            map.insert("SubState".to_string(), "start".to_string());
            map.insert("Description".to_string(), format!("{unit} unit"));
            Ok(map)
        }
        fn is_active(&self, _unit: &str) -> Result<bool, String> {
            Ok(false)
        }
        fn start_unit(&self, _unit: &str) -> Result<(), String> {
            Ok(())
        }
    }

    struct NeverReadyServer;

    impl ServerCheck for NeverReadyServer {
        fn get_text(&self, _url: &str) -> Result<String, String> {
            Err("connection refused".to_string())
        }
    }

    let helper =
        Helper::with_services(config, Box::new(StuckSystemd), Box::new(NeverReadyServer));

    let response = helper.ensure_started(
        Target::Chat,
        "test-model",
        "/models/test.gguf",
        |port, secs| wait_for_server(&helper, port, secs),
    );

    assert_eq!(response.status, HelperStatus::Error);
    assert!(!response.server_ready);
    assert!(response.message.contains("did not become ready"));
}

// ============= Lease tests =============

#[test]
fn lease_acquire_response_serializes_to_json() {
    let response = LeaseAcquireResponse {
        status: HelperStatus::Okay,
        message: "lease renewed".to_string(),
        inhibit_holder: Some(UnitInfo {
            unit_name: "llm-wake-proxy-inhibit".to_string(),
            active_state: "active".to_string(),
            sub_state: "running".to_string(),
            description: "llm-wake-proxy inhibit holder".to_string(),
        }),
        ttl_secs: 900,
        renewed: true,
    };

    let json = response.to_json();
    assert_eq!(json["status"], "ok");
    assert_eq!(json["ttl_secs"], 900);
    assert_eq!(json["renewed"], true);
    assert_eq!(json["inhibit_holder"]["active_state"], "active");
}

#[test]
fn lease_acquire_response_with_error() {
    let response = LeaseAcquireResponse {
        status: HelperStatus::Error,
        message: "failed to acquire lease: systemd-run not found".to_string(),
        inhibit_holder: None,
        ttl_secs: 900,
        renewed: false,
    };

    let json = response.to_json();
    assert_eq!(json["status"], "error");
    assert_eq!(json["inhibit_holder"], serde_json::Value::Null);
}

#[test]
fn lease_release_response_serializes_to_json() {
    let response = LeaseReleaseResponse {
        status: HelperStatus::Okay,
        message: "lease released".to_string(),
        inhibit_holder: Some(UnitInfo {
            unit_name: "llm-wake-proxy-inhibit".to_string(),
            active_state: "inactive".to_string(),
            sub_state: "dead".to_string(),
            description: String::new(),
        }),
    };

    let json = response.to_json();
    assert_eq!(json["status"], "ok");
    assert_eq!(json["inhibit_holder"]["active_state"], "inactive");
}

#[test]
fn lease_release_response_with_error() {
    let response = LeaseReleaseResponse {
        status: HelperStatus::Error,
        message: "failed to release lease: unit not found".to_string(),
        inhibit_holder: None,
    };

    let json = response.to_json();
    assert_eq!(json["status"], "error");
    assert_eq!(json["inhibit_holder"], serde_json::Value::Null);
}

#[test]
fn lease_inspect_response_serializes_to_json() {
    let response = LeaseInspectResponse {
        status: HelperStatus::Okay,
        message: "current lease state".to_string(),
        inhibit_holder: Some(UnitInfo {
            unit_name: "llm-wake-proxy-inhibit".to_string(),
            active_state: "active".to_string(),
            sub_state: "running".to_string(),
            description: "llm-wake-proxy inhibit holder".to_string(),
        }),
    };

    let json = response.to_json();
    assert_eq!(json["status"], "ok");
    assert_eq!(json["inhibit_holder"]["active_state"], "active");
}

#[test]
fn lease_acquire_creates_transient_unit() {
    let config = HelperConfig::default();

    struct LeaseSystemd;

    impl SystemdControl for LeaseSystemd {
        fn show_unit(&self, unit: &str) -> Result<TextTable, String> {
            let mut map = TextTable::new();
            map.insert("ActiveState".to_string(), "active".to_string());
            map.insert("SubState".to_string(), "running".to_string());
            map.insert("Description".to_string(), format!("{unit} unit"));
            Ok(map)
        }
        fn is_active(&self, _unit: &str) -> Result<bool, String> {
            Ok(false)
        }
        fn start_unit(&self, _unit: &str) -> Result<(), String> {
            Ok(())
        }
        fn replace_transient_unit(
            &self,
            _unit: &str,
            _description: &str,
            _args: &[&str],
        ) -> Result<(), String> {
            Ok(())
        }
    }

    impl ServerCheck for LeaseSystemd {
        fn get_text(&self, _url: &str) -> Result<String, String> {
            Ok(String::new())
        }
    }

    let helper = Helper::with_services(config, Box::new(LeaseSystemd), Box::new(LeaseSystemd));
    let response = helper.lease_acquire(900);

    assert_eq!(response.status, HelperStatus::Okay);
    assert_eq!(response.message, "lease acquired");
    assert_eq!(response.ttl_secs, 900);
    assert!(!response.renewed);
}

#[test]
fn lease_acquire_renews_existing_lease() {
    let config = HelperConfig::default();

    struct RenewLeaseSystemd;

    impl SystemdControl for RenewLeaseSystemd {
        fn show_unit(&self, unit: &str) -> Result<TextTable, String> {
            let mut map = TextTable::new();
            map.insert("ActiveState".to_string(), "active".to_string());
            map.insert("SubState".to_string(), "running".to_string());
            map.insert("Description".to_string(), format!("{unit} unit"));
            Ok(map)
        }
        fn is_active(&self, _unit: &str) -> Result<bool, String> {
            Ok(true)
        }
        fn start_unit(&self, _unit: &str) -> Result<(), String> {
            Ok(())
        }
        fn replace_transient_unit(
            &self,
            _unit: &str,
            _description: &str,
            _args: &[&str],
        ) -> Result<(), String> {
            Ok(())
        }
    }

    impl ServerCheck for RenewLeaseSystemd {
        fn get_text(&self, _url: &str) -> Result<String, String> {
            Ok(String::new())
        }
    }

    let helper = Helper::with_services(
        config,
        Box::new(RenewLeaseSystemd),
        Box::new(RenewLeaseSystemd),
    );
    let response = helper.lease_acquire(600);

    assert_eq!(response.status, HelperStatus::Okay);
    assert_eq!(response.message, "lease renewed");
    assert!(response.renewed);
}

#[test]
fn lease_acquire_reports_failure() {
    let config = HelperConfig::default();

    struct FailingLeaseSystemd;

    impl SystemdControl for FailingLeaseSystemd {
        fn show_unit(&self, unit: &str) -> Result<TextTable, String> {
            let mut map = TextTable::new();
            map.insert("ActiveState".to_string(), "inactive".to_string());
            map.insert("SubState".to_string(), "dead".to_string());
            map.insert("Description".to_string(), format!("{unit} unit"));
            Ok(map)
        }
        fn is_active(&self, _unit: &str) -> Result<bool, String> {
            Ok(false)
        }
        fn start_unit(&self, _unit: &str) -> Result<(), String> {
            Ok(())
        }
        fn replace_transient_unit(
            &self,
            _unit: &str,
            _description: &str,
            _args: &[&str],
        ) -> Result<(), String> {
            Err("systemd-run binary not found".to_string())
        }
    }

    impl ServerCheck for FailingLeaseSystemd {
        fn get_text(&self, _url: &str) -> Result<String, String> {
            Ok(String::new())
        }
    }

    let helper = Helper::with_services(
        config,
        Box::new(FailingLeaseSystemd),
        Box::new(FailingLeaseSystemd),
    );
    let response = helper.lease_acquire(900);

    assert_eq!(response.status, HelperStatus::Error);
    assert!(response.message.contains("systemd-run"));
    assert!(!response.renewed);
}

#[test]
fn lease_release_stops_inhibit_unit() {
    let config = HelperConfig::default();

    struct StoppableSystemd;

    impl SystemdControl for StoppableSystemd {
        fn show_unit(&self, unit: &str) -> Result<TextTable, String> {
            let mut map = TextTable::new();
            map.insert("ActiveState".to_string(), "inactive".to_string());
            map.insert("SubState".to_string(), "dead".to_string());
            map.insert("Description".to_string(), format!("{unit} unit"));
            Ok(map)
        }
        fn is_active(&self, _unit: &str) -> Result<bool, String> {
            Ok(false)
        }
        fn start_unit(&self, _unit: &str) -> Result<(), String> {
            Ok(())
        }
        fn stop_unit(&self, _unit: &str) -> Result<(), String> {
            Ok(())
        }
    }

    impl ServerCheck for StoppableSystemd {
        fn get_text(&self, _url: &str) -> Result<String, String> {
            Ok(String::new())
        }
    }

    let helper = Helper::with_services(
        config,
        Box::new(StoppableSystemd),
        Box::new(StoppableSystemd),
    );
    let response = helper.lease_release();

    assert_eq!(response.status, HelperStatus::Okay);
    assert_eq!(response.message, "lease released");
}

#[test]
fn lease_release_reports_failure() {
    let config = HelperConfig::default();

    struct UnstoppableSystemd;

    impl SystemdControl for UnstoppableSystemd {
        fn show_unit(&self, _unit: &str) -> Result<TextTable, String> {
            Err("unit not found".to_string())
        }
        fn is_active(&self, _unit: &str) -> Result<bool, String> {
            Ok(false)
        }
        fn start_unit(&self, _unit: &str) -> Result<(), String> {
            Ok(())
        }
        fn stop_unit(&self, _unit: &str) -> Result<(), String> {
            Err("unit not found".to_string())
        }
    }

    impl ServerCheck for UnstoppableSystemd {
        fn get_text(&self, _url: &str) -> Result<String, String> {
            Ok(String::new())
        }
    }

    let helper = Helper::with_services(
        config,
        Box::new(UnstoppableSystemd),
        Box::new(UnstoppableSystemd),
    );
    let response = helper.lease_release();

    assert_eq!(response.status, HelperStatus::Error);
    assert!(response.message.contains("unit not found"));
}

#[test]
fn lease_inspect_returns_current_state() {
    let config = HelperConfig::default();

    struct InspectableSystemd;

    impl SystemdControl for InspectableSystemd {
        fn show_unit(&self, unit: &str) -> Result<TextTable, String> {
            let mut map = TextTable::new();
            map.insert("ActiveState".to_string(), "active".to_string());
            map.insert("SubState".to_string(), "running".to_string());
            map.insert("Description".to_string(), format!("{unit} unit"));
            Ok(map)
        }
        fn is_active(&self, _unit: &str) -> Result<bool, String> {
            Ok(true)
        }
        fn start_unit(&self, _unit: &str) -> Result<(), String> {
            Ok(())
        }
    }

    impl ServerCheck for InspectableSystemd {
        fn get_text(&self, _url: &str) -> Result<String, String> {
            Ok(String::new())
        }
    }

    let helper = Helper::with_services(
        config,
        Box::new(InspectableSystemd),
        Box::new(InspectableSystemd),
    );
    let response = helper.lease_inspect();

    assert_eq!(response.status, HelperStatus::Okay);
    let unit = response.inhibit_holder.unwrap();
    assert_eq!(unit.active_state, "active");
}

struct Scripted {
    active: Result<bool, String>,
    models: Result<String, String>,
    asked: Mutex<Vec<String>>,
}

fn scripted(models: Result<&str, &str>) -> Scripted {
    Scripted {
        active: Ok(true),
        models: match models {
            Ok(body) => Ok(body.to_string()),
            Err(error) => Err(error.to_string()),
        },
        asked: Mutex::new(Vec::new()),
    }
}

impl SystemdControl for Scripted {
    fn show_unit(&self, unit: &str) -> Result<TextTable, String> {
        if unit == "llm-wake-proxy-inhibit" {
            return Err("unit not found".to_string());
        }
        let mut table = TextTable::new();
        table.insert("SubState".to_string(), "running".to_string());
        Ok(table)
    }
    fn is_active(&self, _unit: &str) -> Result<bool, String> {
        self.active.clone()
    }
    fn start_unit(&self, unit: &str) -> Result<(), String> {
        self.asked.lock().unwrap().push(unit.to_string());
        Ok(())
    }
    fn replace_transient_unit(
        &self,
        unit: &str,
        description: &str,
        args: &[&str],
    ) -> Result<(), String> {
        let mut asked = self.asked.lock().unwrap();
        asked.push(unit.to_string());
        asked.push(description.to_string());
        for arg in args {
            asked.push(arg.to_string());
        }
        Ok(())
    }
}

impl ServerCheck for Scripted {
    fn get_text(&self, url: &str) -> Result<String, String> {
        self.asked.lock().unwrap().push(url.to_string());
        self.models.clone()
    }
}

fn scripted_helper(models: Result<&str, &str>) -> Helper<Scripted, Scripted> {
    Helper::with_services(
        HelperConfig::default(),
        Box::new(scripted(models)),
        Box::new(scripted(models)),
    )
}

#[test]
fn embeddings_server_is_started_under_its_own_unit_and_port() {
    let mut helper = scripted_helper(Ok(r#"{"data":[{"id":"embed.gguf"}]}"#));
    helper.sys.active = Err("dbus is gone".to_string());
    let response =
        helper.ensure_started(Target::Embeddings, "embed", "/models/embed.gguf", |port, secs| {
            assert_eq!(port, 8081);
            assert_eq!(secs, 60);
            true
        });
    assert_eq!(response.status, HelperStatus::Okay);
    assert!(response.startup_triggered);
    assert_eq!(*helper.sys.asked.lock().unwrap(), ["llama-server-embeddings"]);
    assert_eq!(
        *helper.http.asked.lock().unwrap(),
        ["http://127.0.0.1:8081/v1/models"]
    );
    let unit = response.llama_server.unwrap();
    assert_eq!(unit.unit_name, "llama-server-embeddings");
    assert_eq!(unit.active_state, "unknown");
    assert_eq!(unit.sub_state, "running");
    assert_eq!(unit.description, "");
}

#[test]
fn answers_about_the_model_are_told_apart() {
    let ensure = |models| {
        let helper = scripted_helper(models);
        helper.ensure_started(Target::Chat, "m", "/models/m.gguf", |_, _| true)
    };
    for body in [
        r#"{}"#,
        r#"{"data":[]}"#,
        r#"{"data":{"id":"x"}}"#,
        r#"{"data":[{"id":7}]}"#,
        r#"{"data":["x"]}"#,
        r#"[1]"#,
        "null",
    ] {
        let response = ensure(Ok(body));
        assert_eq!(response.status, HelperStatus::Error);
        assert!(response.server_ready);
        assert!(!response.model_verified);
        assert_eq!(
            response.message,
            "server responded but returned no model identifiers"
        );
    }

    let response = ensure(Ok("not json"));
    assert_eq!(response.status, HelperStatus::Error);
    assert_eq!(
        response.message,
        format!(
            "model identity check failed: failed to parse models response: {}",
            serde_json::from_str::<serde_json::Value>("not json").unwrap_err()
        )
    );

    let response = ensure(Err("connection refused"));
    assert_eq!(response.status, HelperStatus::Error);
    assert_eq!(response.message, "model identity check failed: connection refused");

    let response = ensure(Ok(r#"{"data":[{"id":"other"},{"id":"m.gguf"}]}"#));
    assert_eq!(response.status, HelperStatus::Mismatch);
    assert_eq!(
        response.message,
        "expected model path '/models/m.gguf', but server reports 'other'"
    );

    let response = ensure(Ok(r#"{"data":[{"id":"//models/m.gguf.bak"}]}"#));
    assert_eq!(response.status, HelperStatus::Okay);
}

#[test]
fn server_that_is_not_ready_in_time() {
    let helper = scripted_helper(Err("connection refused"));
    let response = helper.ensure_started(Target::Chat, "m", "/models/m.gguf", |_, _| false);
    assert_eq!(
        response.message,
        "llama-server did not become ready within 60 seconds"
    );
    assert!(helper.http.asked.lock().unwrap().is_empty());
}

#[test]
fn status_collects_units_and_models() {
    let helper = scripted_helper(Ok(r#"{"data":[{"id":"m.gguf"}]}"#));
    let response = helper.status();
    assert_eq!(response.status, HelperStatus::Okay);
    assert_eq!(response.message, "current host unit state");
    assert_eq!(response.llama_server.unwrap().unit_name, "llama-server");
    assert_eq!(
        response.llama_server_embeddings.unwrap().unit_name,
        "llama-server-embeddings"
    );
    let holder = response.inhibit_holder.unwrap();
    assert_eq!(holder.active_state, "error");
    assert_eq!(holder.sub_state, "unit not found");
    let model = response.active_model.unwrap();
    assert_eq!(model.model_alias, "m.gguf");
    assert_eq!(model.model_path, "m.gguf");
    assert!(model.serving && model.ready);
    assert_eq!(model.reported_id, None);
    assert_eq!(
        *helper.http.asked.lock().unwrap(),
        [
            "http://127.0.0.1:8080/v1/models",
            "http://127.0.0.1:8080/v1/models",
            "http://127.0.0.1:8081/v1/models",
            "http://127.0.0.1:8081/v1/models",
        ]
    );

    let silent = scripted_helper(Err("connection refused")).status();
    assert_eq!(silent.active_model, None);
    let garbled = scripted_helper(Ok("garbled")).status().active_model.unwrap();
    assert!(garbled.serving && !garbled.ready);
    assert_eq!(garbled.model_alias, "");
}

#[test]
fn lease_is_held_by_a_sleeping_command() {
    let helper = scripted_helper(Ok(""));
    let response = helper.lease_acquire(5);
    assert_eq!(response.status, HelperStatus::Error);
    assert_eq!(
        response.message,
        "lease was created but the inhibit unit is not active"
    );
    assert_eq!(response.ttl_secs, 60);
    assert!(!response.renewed);
    assert_eq!(
        *helper.sys.asked.lock().unwrap(),
        [
            "llm-wake-proxy-inhibit",
            "llm-wake-proxy inhibit holder",
            "systemd-inhibit",
            "--what=sleep",
            "--who=llm-wake-proxy",
            "--why=Keep awake for active proxy session",
            "sleep",
            "60",
        ]
    );
    assert_eq!(scripted_helper(Ok("")).lease_acquire(86_401).ttl_secs, 86_400);
    assert_eq!(scripted_helper(Ok("")).lease_acquire(3600).ttl_secs, 3600);
}

#[test]
fn lease_without_a_unit() {
    let helper = scripted_helper(Ok(""));
    let inspected = helper.lease_inspect();
    assert_eq!(inspected.status, HelperStatus::Error);
    assert_eq!(inspected.message, "failed to inspect lease: unit not found");
    assert_eq!(inspected.inhibit_holder, None);
    let released = helper.lease_release();
    assert_eq!(released.status, HelperStatus::Error);
    assert_eq!(released.message, "failed to release lease: stop_unit not implemented");
}

#[test]
fn helper_config_comes_from_the_environment() {
    let mut env = TextTable::new();
    assert_eq!(HelperConfig::from_env(&env), HelperConfig::default());
    for (name, value) in [
        ("LLAMA_SERVER_UNIT", "one"),
        ("INHIBIT_HOLDER_UNIT", ""),
        ("LLAMA_SERVER_PORT", "9000"),
        ("LLAMA_SERVER_EMBEDDINGS_UNIT", "two"),
        ("LLAMA_SERVER_EMBEDDINGS_PORT", "70000"),
        ("SERVER_START_TIMEOUT_SECS", "5"),
    ] {
        env.insert(name.to_string(), value.to_string());
    }
    let config = HelperConfig::from_env(&env);
    assert_eq!(config.llama_server_unit, "one");
    assert_eq!(config.inhibit_holder_unit, "");
    assert_eq!(config.llama_server_port, 9000);
    assert_eq!(config.llama_server_embeddings_unit, "two");
    assert_eq!(config.llama_server_embeddings_port, 8081);
    assert_eq!(config.server_start_timeout_secs, 5);
}

#[test]
fn target_errors_name_the_target() {
    assert_eq!(
        Target::parse("bogus").unwrap_err(),
        "unknown target 'bogus', expected 'chat' or 'embeddings'"
    );
}

#[test]
fn printed_answers_keep_the_order_of_their_fields() {
    let started = scripted_helper(Ok(r#"{"data":[{"id":"m.gguf"}]}"#)).ensure_started(
        Target::Chat,
        "m \"quoted\"\nname",
        "/models/m.gguf",
        |_, _| true,
    );
    let unit = r#"{"unit_name":"llama-server","active_state":"unknown","sub_state":"running","description":""}"#;
    assert_eq!(
        started.to_text(),
        [
            r#"{"status":"ok","message":"model is already running and ready","#,
            r#""model_alias":"m \"quoted\"\nname","model_path":"/models/m.gguf","#,
            r#""startup_triggered":false,"server_ready":true,"model_verified":true,"#,
            r#""llama_server":"#,
            unit,
            "}",
        ]
        .join("")
    );

    let response = LeaseAcquireResponse {
        status: HelperStatus::Error,
        message: "no".to_string(),
        inhibit_holder: None,
        ttl_secs: 900,
        renewed: false,
    };
    assert_eq!(
        response.to_text(),
        r#"{"status":"error","message":"no","inhibit_holder":null,"ttl_secs":900,"renewed":false}"#
    );
    let response = LeaseReleaseResponse {
        status: HelperStatus::Okay,
        message: "lease released".to_string(),
        inhibit_holder: None,
    };
    assert_eq!(
        response.to_text(),
        r#"{"status":"ok","message":"lease released","inhibit_holder":null}"#
    );
    let response = LeaseInspectResponse {
        status: HelperStatus::Mismatch,
        message: String::new(),
        inhibit_holder: started.llama_server,
    };
    assert_eq!(
        response.to_text(),
        [r#"{"status":"mismatch","message":"","inhibit_holder":"#, unit, "}"].join("")
    );
}

#[test]
fn printed_answers_are_read_back() {
    let helper = scripted_helper(Ok(r#"{"data":[{"id":"a \"quoted\"\nname"}]}"#));
    let status = helper.status();
    let printed = status.to_text();
    assert!(!printed.contains('\n'));
    assert!(printed.starts_with(r#"{"status":"ok","message":"current host unit state","llama_server":{"#));
    let read: serde_json::Value = serde_json::from_str(&printed).unwrap();
    assert_eq!(read, status.to_json());
    assert_eq!(read["active_model"]["model_alias"], "a \"quoted\"\nname");

    let started = helper.ensure_started(Target::Chat, "m", "/models/m.gguf", |_, _| true);
    let read: serde_json::Value = serde_json::from_str(&started.to_text()).unwrap();
    assert_eq!(read, started.to_json());
    assert_eq!(read["status"], "mismatch");

    let acquired = helper.lease_acquire(3600);
    let read: serde_json::Value = serde_json::from_str(&acquired.to_text()).unwrap();
    assert_eq!(read, acquired.to_json());
}
