use llm_wake_proxy::cli::{
    ensure_started_exit, exit_for_status, parse_command, parse_ttl_arg, HelperCommand, Usage,
};
use llm_wake_proxy::helper::{EnsureStartedResponse, HelperStatus, Target};

fn args(words: &[&str]) -> Vec<String> {
    let mut args = vec!["helper".to_string()];
    for word in words {
        args.push(word.to_string());
    }
    args
}

fn command(words: &[&str]) -> HelperCommand {
    parse_command(&args(words), Some("/models/m.gguf".to_string()))
}

#[test]
fn status_and_lease_commands() {
    assert!(matches!(command(&["status"]), HelperCommand::Status));
    assert!(matches!(command(&["lease", "release"]), HelperCommand::LeaseRelease));
    assert!(matches!(command(&["lease", "inspect"]), HelperCommand::LeaseInspect));
    match command(&["lease", "acquire", "--ttl", "3600"]) {
        HelperCommand::LeaseAcquire { ttl_secs, warning } => {
            assert_eq!(ttl_secs, 3600);
            assert_eq!(warning, None);
        }
        other => panic!("unexpected command {other:?}"),
    }
}

#[test]
fn ensure_started_needs_a_target_an_alias_and_a_model() {
    match command(&["ensure-started", "embeddings", "alias"]) {
        HelperCommand::EnsureStarted { target, model_alias, model_path } => {
            assert_eq!(target, Target::Embeddings);
            assert_eq!(model_alias, "alias");
            assert_eq!(model_path, "/models/m.gguf");
        }
        other => panic!("unexpected command {other:?}"),
    }
    assert!(matches!(
        command(&["ensure-started", "chat"]),
        HelperCommand::Help(Usage::EnsureStarted)
    ));
    match command(&["ensure-started", "image", "alias"]) {
        HelperCommand::Refused(message) => {
            assert_eq!(message, "unknown target 'image', expected 'chat' or 'embeddings'");
        }
        other => panic!("unexpected command {other:?}"),
    }
    for path in [None, Some(String::new())] {
        match parse_command(&args(&["ensure-started", "chat", "alias"]), path) {
            HelperCommand::Refused(message) => {
                assert_eq!(message, "EXPECTED_MODEL_PATH must be set for ensure-started");
            }
            other => panic!("unexpected command {other:?}"),
        }
    }
}

#[test]
fn unknown_commands_are_explained() {
    assert!(matches!(command(&[]), HelperCommand::Help(Usage::General)));
    assert!(matches!(parse_command(&vec![], None), HelperCommand::Help(Usage::General)));
    assert!(matches!(command(&["stop"]), HelperCommand::Help(Usage::General)));
    assert!(matches!(command(&["lease"]), HelperCommand::Help(Usage::Lease)));
    assert!(matches!(command(&["lease", "steal"]), HelperCommand::Help(Usage::Lease)));
    assert_eq!(Usage::General.lines()[0], "Usage:");
    assert_eq!(Usage::General.lines().len(), 11);
    assert_eq!(Usage::Lease.lines()[0], "Usage: helper lease <acquire|release|inspect>");
    assert_eq!(Usage::Lease.lines().len(), 8);
    assert_eq!(Usage::EnsureStarted.lines().len(), 7);
}

#[test]
fn time_to_live_of_a_lease() {
    let asked = |words: &[&str]| parse_ttl_arg(&args(words), 1);
    assert_eq!(asked(&[]), (900, None));
    assert_eq!(asked(&["--ttl", "60"]), (60, None));
    assert_eq!(
        asked(&["--ttl"]),
        (900, Some("Warning: --ttl requires a value, using default 900".to_string()))
    );
    assert_eq!(
        asked(&["--ttl", "soon"]),
        (
            900,
            Some(
                "Warning: --ttl value 'soon' is not a valid number, using default 900".to_string()
            )
        )
    );
    assert_eq!(
        asked(&["--time", "60"]),
        (
            900,
            Some("Warning: unexpected argument '--time', use --ttl <secs>".to_string())
        )
    );
}

#[test]
fn exits() {
    let exit = exit_for_status(HelperStatus::Okay, Some("fine"));
    assert!(exit.success);
    assert_eq!(exit.stderr, None);
    let exit = exit_for_status(HelperStatus::Error, Some("bad"));
    assert!(!exit.success);
    assert_eq!(exit.stderr.as_deref(), Some("bad"));
    let exit = exit_for_status(HelperStatus::Mismatch, None);
    assert!(!exit.success);
    assert_eq!(exit.stderr, None);
}

#[test]
fn exits_of_ensure_started() {
    let response = |status| EnsureStartedResponse {
        status,
        message: "why".to_string(),
        model_alias: String::new(),
        model_path: String::new(),
        startup_triggered: false,
        server_ready: false,
        model_verified: false,
        llama_server: None,
    };
    let exit = ensure_started_exit(&response(HelperStatus::Okay));
    assert!(exit.success);
    assert_eq!(exit.stderr, None);
    let exit = ensure_started_exit(&response(HelperStatus::Mismatch));
    assert!(!exit.success);
    assert_eq!(exit.stderr.as_deref(), Some("Model mismatch: why"));
    let exit = ensure_started_exit(&response(HelperStatus::Error));
    assert!(!exit.success);
    assert_eq!(exit.stderr.as_deref(), Some("Error: why"));
}
