use llm_wake_proxy::helper::{
    EnsureStartedResponse, HelperStatus, StatusResponse, Target, UnitInfo,
};
use llm_wake_proxy::host::{
    after_ensure_started, ensure_started_report, fetch_status_report, helper_output,
    map_unit_state, tunnel_action, tunnel_outcome, wake_error, with_unit_states, HelperStep,
    SshHelperRpc, SshTcpProbe, SshTunnelManager, TunnelAction, TunnelProcess, TunnelStart,
    WakeStage, WolWakeRequester,
};
use llm_wake_proxy::lifecycle::{LifecycleError, LifecycleState, TunnelState, UnitState};
use llm_wake_proxy::systemd::CommandOutput;

#[test]
fn map_unit_state_known_values() {
    assert_eq!(map_unit_state(Some("active")), UnitState::Active);
    assert_eq!(map_unit_state(Some("inactive")), UnitState::Inactive);
    assert_eq!(map_unit_state(Some("activating")), UnitState::Activating);
    assert_eq!(map_unit_state(Some("failed")), UnitState::Failed);
    assert_eq!(map_unit_state(None), UnitState::Unknown);
    assert_eq!(map_unit_state(Some("garbage")), UnitState::Unknown);
}

fn rpc() -> SshHelperRpc {
    SshHelperRpc::new(
        "jon".to_string(),
        "llama.example".to_string(),
        "/usr/local/bin/llm-wake-proxy-helper".to_string(),
        "/models/m.gguf".to_string(),
        "alias".to_string(),
        "/keys/id".to_string(),
        Target::Embeddings,
    )
}

fn unit(active_state: &str) -> UnitInfo {
    UnitInfo {
        unit_name: "llama-server".to_string(),
        active_state: active_state.to_string(),
        sub_state: String::new(),
        description: String::new(),
    }
}

fn started(status: HelperStatus, model_verified: bool) -> EnsureStartedResponse {
    EnsureStartedResponse {
        status,
        message: "what happened".to_string(),
        model_alias: "alias".to_string(),
        model_path: "/models/m.gguf".to_string(),
        startup_triggered: false,
        server_ready: true,
        model_verified,
        llama_server: Some(unit("active")),
    }
}

fn state_of_host(status: HelperStatus, server: &str) -> StatusResponse {
    StatusResponse {
        status,
        message: String::new(),
        llama_server: Some(unit(server)),
        inhibit_holder: Some(unit("activating")),
        active_model: None,
        llama_server_embeddings: None,
        active_model_embeddings: None,
    }
}

#[test]
fn other_unit_states() {
    assert_eq!(map_unit_state(Some("reloading")), UnitState::Activating);
    assert_eq!(map_unit_state(Some("error")), UnitState::Failed);
    assert_eq!(map_unit_state(Some("")), UnitState::Unknown);
}

#[test]
fn magic_packet_repeats_the_mac_address() {
    let wake = WolWakeRequester::new([1, 2, 3, 4, 5, 6], "192.168.1.255".to_string(), 9);
    let packet = wake.magic_packet();
    assert_eq!(packet.len(), 102);
    assert!(packet[..6].iter().all(|b| *b == 0xFF));
    for i in 0..16 {
        assert_eq!(packet[6 + 6 * i..12 + 6 * i], [1, 2, 3, 4, 5, 6]);
    }
    assert_eq!(wake.address(), "192.168.1.255:9");
}

#[test]
fn wake_errors_name_their_stage() {
    assert_eq!(wake_error(WakeStage::Bind, "e").message, "WOL bind failed: e");
    assert_eq!(wake_error(WakeStage::Broadcast, "e").message, "WOL broadcast failed: e");
    assert_eq!(wake_error(WakeStage::Send, "e").message, "WOL send failed: e");
}

#[test]
fn ssh_is_probed_at_its_port() {
    assert_eq!(SshTcpProbe::new("host".to_string(), 2222).address(), "host:2222");
}

#[test]
fn helper_is_called_over_ssh() {
    assert_eq!(
        rpc().ensure_started_args(),
        [
            "-o",
            "ConnectTimeout=10",
            "-o",
            "BatchMode=yes",
            "-o",
            "StrictHostKeyChecking=accept-new",
            "-i",
            "/keys/id",
            "jon@llama.example",
            "env",
            "EXPECTED_MODEL_PATH=/models/m.gguf",
            "/usr/local/bin/llm-wake-proxy-helper",
            "ensure-started",
            "embeddings",
            "alias",
        ]
    );
    assert_eq!(
        rpc().status_args()[8..],
        ["jon@llama.example", "/usr/local/bin/llm-wake-proxy-helper", "status"]
    );
}

#[test]
fn tunnel_is_opened_over_ssh() {
    let tunnel = SshTunnelManager::new(
        "jon".to_string(),
        "llama.example".to_string(),
        18081,
        8081,
        "/keys/id".to_string(),
    );
    assert_eq!(
        tunnel.tunnel_args(),
        [
            "-o",
            "ConnectTimeout=10",
            "-o",
            "BatchMode=yes",
            "-o",
            "StrictHostKeyChecking=accept-new",
            "-o",
            "ExitOnForwardFailure=yes",
            "-i",
            "/keys/id",
            "-L",
            "127.0.0.1:18081:127.0.0.1:8081",
            "-N",
            "jon@llama.example",
        ]
    );
}

#[test]
fn running_tunnel_is_kept() {
    assert_eq!(tunnel_action(TunnelProcess::Running), TunnelAction::Report(TunnelState::Ready));
    assert_eq!(tunnel_action(TunnelProcess::Unknown), TunnelAction::Report(TunnelState::Down));
    assert_eq!(tunnel_action(TunnelProcess::Absent), TunnelAction::Create);
    assert_eq!(tunnel_action(TunnelProcess::Exited), TunnelAction::Create);
}

#[test]
fn tunnel_that_does_not_stay_up_is_an_error() {
    assert_eq!(tunnel_outcome(TunnelStart::Running), Ok(TunnelState::Ready));
    let message = |start| tunnel_outcome(start).unwrap_err().message;
    assert_eq!(
        message(TunnelStart::NotSpawned("e".to_string())),
        "failed to spawn SSH tunnel: e"
    );
    assert_eq!(
        message(TunnelStart::Exited("exit status: 255".to_string())),
        "SSH tunnel exited immediately with status: exit status: 255"
    );
    assert_eq!(message(TunnelStart::NotChecked("e".to_string())), "failed to check tunnel: e");
}

#[test]
fn helper_output_is_text_or_an_error() {
    let output = |success, stdout: &[u8], stderr: &[u8]| {
        Ok(CommandOutput { success, stdout: stdout.to_vec(), stderr: stderr.to_vec() })
    };
    assert_eq!(helper_output(output(true, b"{}", b"note")).unwrap(), "{}");
    assert_eq!(
        helper_output(output(false, b"{}", b"denied")).unwrap_err().message,
        "helper command failed: denied"
    );
    assert_eq!(
        helper_output(Err("not found".to_string())).unwrap_err().message,
        "ssh failed: not found"
    );
    assert_eq!(
        helper_output(output(true, b"a\xff", b"")).unwrap_err().message,
        format!(
            "invalid UTF-8 from helper: {}",
            String::from_utf8(b"a\xff".to_vec()).unwrap_err()
        )
    );
}

#[test]
fn backend_is_ready_only_with_the_right_model() {
    let ready = ensure_started_report(Ok(started(HelperStatus::Okay, true))).unwrap();
    assert_eq!(ready.lifecycle, LifecycleState::Ready);
    assert_eq!(ready.error, None);
    assert_eq!(ready.llama_server_unit, UnitState::Active);
    assert_eq!(ready.inhibit_unit, UnitState::Unknown);

    let unverified = ensure_started_report(Ok(started(HelperStatus::Okay, false))).unwrap();
    assert_eq!(unverified.lifecycle, LifecycleState::Warming);

    for status in [HelperStatus::Mismatch, HelperStatus::Error] {
        let failed = ensure_started_report(Ok(started(status, true))).unwrap();
        assert_eq!(failed.lifecycle, LifecycleState::Error);
        assert_eq!(failed.error.as_deref(), Some("what happened"));
    }

    assert_eq!(
        ensure_started_report(Err("EOF".to_string())).unwrap_err().message,
        "failed to parse ensure-started response: EOF"
    );
}

#[test]
fn state_of_the_host_tells_of_its_units() {
    let ready = fetch_status_report(Ok(state_of_host(HelperStatus::Okay, "active"))).unwrap();
    assert_eq!(ready.lifecycle, LifecycleState::Ready);
    assert_eq!(ready.inhibit_unit, UnitState::Activating);
    let stopped = fetch_status_report(Ok(state_of_host(HelperStatus::Okay, "inactive"))).unwrap();
    assert_eq!(stopped.lifecycle, LifecycleState::Warming);
    let failed = fetch_status_report(Ok(state_of_host(HelperStatus::Error, "active"))).unwrap();
    assert_eq!(failed.lifecycle, LifecycleState::Error);
    assert_eq!(failed.error, None);
    assert_eq!(
        fetch_status_report(Err("EOF".to_string())).unwrap_err().message,
        "failed to parse status response: EOF"
    );
}

#[test]
fn units_of_a_ready_backend_are_looked_up() {
    let report = ensure_started_report(Ok(started(HelperStatus::Okay, true)));
    let state = match after_ensure_started(report) {
        HelperStep::FetchStatus(state) => state,
        other => panic!("expected a look at the host, got {other:?}"),
    };
    let status = fetch_status_report(Ok(state_of_host(HelperStatus::Error, "failed")));
    let state = with_unit_states(state, status);
    assert_eq!(state.lifecycle, LifecycleState::Ready);
    assert_eq!(state.llama_server_unit, UnitState::Failed);
    assert_eq!(state.inhibit_unit, UnitState::Activating);
    let state = with_unit_states(state, Err(LifecycleError::new("ssh failed: e")));
    assert_eq!(state.llama_server_unit, UnitState::Failed);

    let report = ensure_started_report(Ok(started(HelperStatus::Okay, false)));
    assert!(matches!(after_ensure_started(report), HelperStep::Done(Ok(_))));
    let report = ensure_started_report(Err("EOF".to_string()));
    assert!(matches!(after_ensure_started(report), HelperStep::Done(Err(_))));
}
