use std::time::Duration;

use llm_wake_proxy::config::{parse_mac, AppConfig, WarmExecutionConfig};
use llm_wake_proxy::table::TextTable;

fn set(env: &mut TextTable, name: &str, value: &str) {
    env.insert(name.to_string(), value.to_string());
}

fn required_host_env() -> TextTable {
    let mut env = TextTable::new();
    set(&mut env, "SSH_HOST", "test-host");
    set(&mut env, "SSH_USER", "test-user");
    set(&mut env, "WOL_MAC_ADDRESS", "AA:BB:CC:DD:EE:FF");
    set(&mut env, "MODEL_PATH", "/models/test.gguf");
    env
}

#[test]
fn default_warm_execution_limits_are_positive() {
    let config = AppConfig::from_env(&required_host_env()).unwrap();
    assert!(config.warm_execution.max_active_requests > 0);
    assert!(config.warm_execution.max_queued_requests > 0);
}

#[test]
fn queue_limit_allows_zero_while_active_limit_stays_positive() {
    let mut env = required_host_env();
    set(&mut env, "WARM_MAX_ACTIVE_REQUESTS", "0");
    set(&mut env, "WARM_MAX_QUEUED_REQUESTS", "0");

    let config = AppConfig::from_env(&env).unwrap();

    assert_eq!(config.warm_execution.max_active_requests, 2);
    assert_eq!(config.warm_execution.max_queued_requests, 0);
}

#[test]
fn parse_mac_accepts_colon_format() {
    let mac = parse_mac("AA:BB:CC:DD:EE:FF").unwrap();
    assert_eq!(mac, [0xAA, 0xBB, 0xCC, 0xDD, 0xEE, 0xFF]);
}

#[test]
fn parse_mac_rejects_short_input() {
    assert!(parse_mac("AA:BB:CC:DD:EE").is_none());
}

#[test]
fn parse_mac_rejects_invalid_hex() {
    assert!(parse_mac("AA:BB:CC:DD:EE:GG").is_none());
}

#[test]
fn parse_mac_reads_each_part_as_a_number() {
    assert_eq!(parse_mac("0:1:+2:00a:fF:10"), Some([0, 1, 2, 10, 255, 16]));
    assert!(parse_mac("100:0:0:0:0:0").is_none());
    assert!(parse_mac("-1:0:0:0:0:0").is_none());
    assert!(parse_mac(":0:0:0:0:0").is_none());
    assert!(parse_mac("0:0:0:0:0:0:0").is_none());
    assert!(parse_mac("").is_none());
}

#[test]
fn embeddings_backend_is_none_when_model_path_unset() {
    let config = AppConfig::from_env(&required_host_env()).unwrap();
    assert!(config.embeddings.backend.is_none());
}

#[test]
fn embeddings_backend_uses_defaults_when_only_model_path_set() {
    let mut env = required_host_env();
    set(&mut env, "EMBEDDINGS_MODEL_PATH", "/models/embed.gguf");

    let config = AppConfig::from_env(&env).unwrap();
    let backend = config.embeddings.backend.expect("backend should be set");

    assert_eq!(backend.model_path, "/models/embed.gguf");
    assert_eq!(backend.alias, format!("{}-embeddings", config.model.alias));
    assert_eq!(backend.provider_id, config.model.provider_id);
    assert_eq!(backend.owned_by, config.model.owned_by);
    assert_eq!(backend.tunnel_local_port, 18081);
    assert_eq!(backend.remote_port, 8081);
}

#[test]
fn embeddings_backend_honors_overrides() {
    let mut env = required_host_env();
    set(&mut env, "EMBEDDINGS_MODEL_PATH", "/models/embed.gguf");
    set(&mut env, "EMBEDDINGS_MODEL_ALIAS", "embed-alias");
    set(&mut env, "EMBEDDINGS_MODEL_PROVIDER_ID", "custom-provider");
    set(&mut env, "EMBEDDINGS_MODEL_OWNED_BY", "custom-owner");
    set(&mut env, "EMBEDDINGS_TUNNEL_LOCAL_PORT", "28081");
    set(&mut env, "EMBEDDINGS_LLAMA_SERVER_PORT", "9090");

    let config = AppConfig::from_env(&env).unwrap();
    let backend = config.embeddings.backend.expect("backend should be set");

    assert_eq!(backend.alias, "embed-alias");
    assert_eq!(backend.provider_id, "custom-provider");
    assert_eq!(backend.owned_by, "custom-owner");
    assert_eq!(backend.tunnel_local_port, 28081);
    assert_eq!(backend.remote_port, 9090);
}

#[test]
fn embeddings_backend_forces_enabled_even_if_explicitly_disabled() {
    let mut env = required_host_env();
    set(&mut env, "EMBEDDINGS_MODEL_PATH", "/models/embed.gguf");
    set(&mut env, "EMBEDDINGS_ENABLED", "false");

    let config = AppConfig::from_env(&env).unwrap();
    assert!(config.embeddings.enabled);
    assert!(config.embeddings.backend.is_some());
}

#[test]
fn embeddings_are_enabled_by_some_words_only() {
    for (value, enabled) in [
        ("1", true),
        ("true", true),
        ("TRUE", true),
        ("yes", true),
        ("True", false),
        ("no", false),
        ("0", false),
        ("  ", true),
    ] {
        let mut env = required_host_env();
        set(&mut env, "EMBEDDINGS_ENABLED", value);
        let config = AppConfig::from_env(&env).unwrap();
        assert_eq!(config.embeddings.enabled, enabled, "{value:?}");
    }
}

#[test]
fn defaults_apply_where_nothing_is_set() {
    let config = AppConfig::from_env(&required_host_env()).unwrap();
    assert_eq!(config.listen_port, 3000);
    assert_eq!(config.model.alias, "llm-wake-proxy");
    assert_eq!(config.model.provider_id, "llama.cpp");
    assert_eq!(config.model.owned_by, "llm-wake-proxy");
    assert!(config.embeddings.enabled);
    assert_eq!(config.warm_execution.max_active_requests, 2);
    assert_eq!(config.warm_execution.max_queued_requests, 16);
    assert_eq!(config.warm_execution.queue_timeout, Duration::from_secs(30));
    assert_eq!(config.host.host, "test-host");
    assert_eq!(config.host.ssh_user, "test-user");
    assert_eq!(config.host.ssh_port, 22);
    assert_eq!(config.host.wol_mac, [0xAA, 0xBB, 0xCC, 0xDD, 0xEE, 0xFF]);
    assert_eq!(config.host.wol_broadcast, "255.255.255.255");
    assert_eq!(config.host.wol_port, 9);
    assert_eq!(config.host.helper_path, "/usr/local/bin/llm-wake-proxy-helper");
    assert_eq!(config.host.model_path, "/models/test.gguf");
    assert_eq!(config.host.ssh_key_path, "~/.ssh/ssh-privatekey");
    assert_eq!(config.host.tunnel_local_port, 18080);
    assert_eq!(config.host.remote_port, 8080);
    assert_eq!(config.cold_start_max_waiting, 32);
}

#[test]
fn values_that_cannot_be_read_fall_back() {
    let mut env = required_host_env();
    set(&mut env, "PORT", "65536");
    set(&mut env, "SSH_PORT", " 23");
    set(&mut env, "WOL_PORT", "7");
    set(&mut env, "WARM_QUEUE_TIMEOUT_SECS", "45");
    set(&mut env, "COLD_START_MAX_WAITING", "0");
    set(&mut env, "MODEL_ALIAS", " \t\u{2003}");
    let config = AppConfig::from_env(&env).unwrap();
    assert_eq!(config.listen_port, 3000);
    assert_eq!(config.host.ssh_port, 22);
    assert_eq!(config.host.wol_port, 7);
    assert_eq!(config.warm_execution.queue_timeout, Duration::from_secs(45));
    assert_eq!(config.cold_start_max_waiting, 32);
    assert_eq!(config.model.alias, "llm-wake-proxy");
}

#[test]
fn required_variables_are_named_when_they_are_missing() {
    let mut env = TextTable::new();
    assert_eq!(AppConfig::from_env(&env).unwrap_err(), "SSH_HOST must be set");
    set(&mut env, "SSH_HOST", "host");
    assert_eq!(AppConfig::from_env(&env).unwrap_err(), "SSH_USER must be set");
    set(&mut env, "SSH_USER", "user");
    assert_eq!(AppConfig::from_env(&env).unwrap_err(), "WOL_MAC_ADDRESS must be set");
    set(&mut env, "WOL_MAC_ADDRESS", "AA-BB-CC-DD-EE-FF");
    assert_eq!(
        AppConfig::from_env(&env).unwrap_err(),
        "WOL_MAC_ADDRESS must be in XX:XX:XX:XX:XX:XX format"
    );
    set(&mut env, "WOL_MAC_ADDRESS", "aa:bb:cc:dd:ee:ff");
    assert_eq!(AppConfig::from_env(&env).unwrap_err(), "MODEL_PATH must be set");
    set(&mut env, "MODEL_PATH", "   ");
    assert_eq!(AppConfig::from_env(&env).unwrap_err(), "MODEL_PATH must be set");
    set(&mut env, "MODEL_PATH", "/models/m.gguf");
    assert!(AppConfig::from_env(&env).is_ok());
}

#[test]
fn default_limits() {
    let limits = WarmExecutionConfig::default();
    assert_eq!(limits.max_active_requests, 2);
    assert_eq!(limits.max_queued_requests, 16);
    assert_eq!(limits.queue_timeout, Duration::from_secs(30));
}
