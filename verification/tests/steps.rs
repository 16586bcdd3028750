use std::sync::{Arc, Mutex};

use llm_wake_proxy::helper::{
    lease_release_response, Helper, HelperConfig, HelperStatus, ServerCheck, SystemdControl, Target,
    UnitInfo,
};
use llm_wake_proxy::steps::{
    unit_stopped, LeaseAsked, LeaseStep, ReleaseStep, StartStep, Starting,
};
use llm_wake_proxy::table::TextTable;

const MODELS: &str = r#"{"data":[{"id":"/models/a.gguf"}]}"#;

fn starting() -> Starting {
    Starting::new("llama.service", "alias", "/models/a.gguf", 30)
}

fn shown(state: &str) -> Result<TextTable, String> {
    let mut table = TextTable::new();
    table.insert("ActiveState".to_string(), state.to_string());
    Ok(table)
}

#[test]
fn an_active_unit_is_waited_for_and_not_started() {
    let s = match starting().active_found(Ok(true)) {
        StartStep::WaitForServer(s) => s,
        other => panic!("expected a wait, got {other:?}"),
    };
    assert!(!s.triggered);
    let s = match s.server_waited(true) {
        StartStep::AskModels(s) => s,
        other => panic!("expected a question, got {other:?}"),
    };
    let s = match s.models_answered(Ok(MODELS.to_string())) {
        StartStep::ShowUnit(s) => s,
        other => panic!("expected a look at the unit, got {other:?}"),
    };
    let response = s.unit_shown(shown("active"));
    assert_eq!(response.status, HelperStatus::Okay);
    assert!(response.model_verified);
    assert!(!response.startup_triggered);
    assert_eq!(response.llama_server.unwrap().active_state, "active");
}

#[test]
fn other_units_are_started_first() {
    for answer in [Ok(false), Err("no bus".to_string())] {
        let s = match starting().active_found(answer) {
            StartStep::StartUnit(s) => s,
            other => panic!("expected a start, got {other:?}"),
        };
        match s.unit_started(Ok(())) {
            StartStep::WaitForServer(s) => assert!(s.triggered),
            other => panic!("expected a wait, got {other:?}"),
        }
    }
}

#[test]
fn a_unit_that_cannot_be_started_is_the_end() {
    let s = match starting().active_found(Ok(false)) {
        StartStep::StartUnit(s) => s,
        other => panic!("expected a start, got {other:?}"),
    };
    match s.unit_started(Err("denied".to_string())) {
        StartStep::Done(response) => {
            assert_eq!(response.status, HelperStatus::Error);
            assert!(response.message.contains("denied"));
        }
        other => panic!("expected an answer, got {other:?}"),
    }
}

#[test]
fn a_server_that_is_not_alive_in_time_is_not_asked() {
    let s = match starting().server_waited(false) {
        StartStep::ShowUnit(s) => s,
        other => panic!("expected a look at the unit, got {other:?}"),
    };
    let response = s.unit_shown(Err("gone".to_string()));
    assert_eq!(response.status, HelperStatus::Error);
    assert!(!response.server_ready);
}

#[test]
fn a_lease_is_looked_at_after_it_is_made() {
    for (asked, ttl) in [(5, 60), (900, 900), (100_000, 86_400)] {
        let found = LeaseAsked::new("holder", asked).active_found(Ok(true));
        assert_eq!(found.ttl_secs, ttl);
        assert!(found.was_active);
        let made = match found.unit_replaced(Ok(())) {
            LeaseStep::ShowUnit(made) => made,
            other => panic!("expected a look at the unit, got {other:?}"),
        };
        let response = made.unit_shown(shown("active"));
        assert_eq!(response.status, HelperStatus::Okay);
        assert!(response.renewed);
        assert_eq!(response.ttl_secs, ttl);
        assert_eq!(response.inhibit_holder.unwrap().unit_name, "holder");
    }
    let found = LeaseAsked::new("holder", 900).active_found(Err("no bus".to_string()));
    assert!(!found.was_active);
    match found.unit_replaced(Err("denied".to_string())) {
        LeaseStep::Done(response) => {
            assert_eq!(response.status, HelperStatus::Error);
            assert!(response.message.contains("denied"));
            assert!(response.inhibit_holder.is_none());
        }
        other => panic!("expected an answer, got {other:?}"),
    }
}

#[test]
fn a_lease_is_looked_at_after_it_is_released() {
    let stopped = match unit_stopped("holder", Ok(())) {
        ReleaseStep::ShowUnit(stopped) => stopped,
        other => panic!("expected a look at the unit, got {other:?}"),
    };
    let response = stopped.unit_shown(shown("inactive"));
    assert_eq!(response.status, HelperStatus::Okay);
    assert_eq!(response.message, "lease released");
    assert_eq!(response.inhibit_holder.unwrap().active_state, "inactive");
    match unit_stopped("holder", Err("denied".to_string())) {
        ReleaseStep::Done(response) => {
            assert_eq!(response.message, "failed to release lease: denied");
        }
        other => panic!("expected an answer, got {other:?}"),
    }
}

#[test]
fn answers_to_a_release() {
    let unit = UnitInfo {
        unit_name: "holder".to_string(),
        active_state: "inactive".to_string(),
        sub_state: "dead".to_string(),
        description: String::new(),
    };
    let response = lease_release_response(Ok(unit));
    assert_eq!(response.status, HelperStatus::Okay);
    assert_eq!(response.inhibit_holder.unwrap().sub_state, "dead");
    let response = lease_release_response(Err("denied".to_string()));
    assert_eq!(response.status, HelperStatus::Error);
    assert_eq!(response.message, "failed to release lease: denied");
    assert!(response.inhibit_holder.is_none());
}

/// A host that writes down what it is asked.
struct Recorder {
    calls: Arc<Mutex<Vec<String>>>,
    active: bool,
    works: bool,
}

impl Recorder {
    fn done(&self, call: &str) -> Result<(), String> {
        self.calls.lock().unwrap().push(call.to_string());
        if self.works {
            Ok(())
        } else {
            Err("denied".to_string())
        }
    }
}

impl SystemdControl for Recorder {
    fn show_unit(&self, _unit: &str) -> Result<TextTable, String> {
        self.calls.lock().unwrap().push("show".to_string());
        shown("active")
    }
    fn is_active(&self, _unit: &str) -> Result<bool, String> {
        self.calls.lock().unwrap().push("is_active".to_string());
        Ok(self.active)
    }
    fn start_unit(&self, _unit: &str) -> Result<(), String> {
        self.done("start")
    }
    fn stop_unit(&self, _unit: &str) -> Result<(), String> {
        self.done("stop")
    }
    fn replace_transient_unit(
        &self,
        _unit: &str,
        _description: &str,
        _args: &[&str],
    ) -> Result<(), String> {
        self.done("replace")
    }
}

impl ServerCheck for Recorder {
    fn get_text(&self, _url: &str) -> Result<String, String> {
        self.calls.lock().unwrap().push("models".to_string());
        Ok(MODELS.to_string())
    }
}

fn calls_of(
    active: bool,
    works: bool,
    command: impl Fn(&Helper<Recorder, Recorder>, &Mutex<Vec<String>>),
) -> Vec<String> {
    let calls = Arc::new(Mutex::new(Vec::new()));
    let recorder = || Recorder { calls: calls.clone(), active, works };
    let helper = Helper::with_services(
        HelperConfig::default(),
        Box::new(recorder()),
        Box::new(recorder()),
    );
    command(&helper, &calls);
    let made = calls.lock().unwrap().clone();
    made
}

#[test]
fn calls_are_made_once_and_in_order() {
    let start = |ready: bool| {
        move |helper: &Helper<Recorder, Recorder>, calls: &Mutex<Vec<String>>| {
            helper.ensure_started(Target::Chat, "alias", "/models/a.gguf", |_, _| {
                calls.lock().unwrap().push("wait".to_string());
                ready
            });
        }
    };
    assert_eq!(calls_of(true, true, start(true)), ["is_active", "wait", "models", "show"]);
    assert_eq!(
        calls_of(false, true, start(true)),
        ["is_active", "start", "wait", "models", "show"]
    );
    assert_eq!(calls_of(false, true, start(false)), ["is_active", "start", "wait", "show"]);
    assert_eq!(calls_of(false, false, start(true)), ["is_active", "start"]);

    let acquire = |helper: &Helper<Recorder, Recorder>, _: &Mutex<Vec<String>>| {
        helper.lease_acquire(600);
    };
    assert_eq!(calls_of(false, true, acquire), ["is_active", "replace", "show"]);
    assert_eq!(calls_of(true, false, acquire), ["is_active", "replace"]);

    let release = |helper: &Helper<Recorder, Recorder>, _: &Mutex<Vec<String>>| {
        helper.lease_release();
    };
    assert_eq!(calls_of(true, true, release), ["stop", "show"]);
    assert_eq!(calls_of(true, false, release), ["stop"]);
}
