//! The commands of the helper step by step: what is asked of systemd and of the model server next,
//! and what follows from the answer.

use vstd::prelude::*;

use crate::helper::{
    answer_view, done_view, identity_view, lease_acquire_response, lease_acquired,
    lease_release_response, lease_released, lease_ttl, model_identity, named_model, shown_view,
    start_failure, start_failure_response, start_outcome, start_response, told_as_shown, unit_info,
    unit_state, EnsureStartedResponse, EnsureStartedView, LeaseAcquireResponse,
    LeaseReleaseResponse,
};
use crate::table::TextTable;
use crate::text::occurs;

verus! {

/// A model server that is to run with a model, and what is known of it so far. It begins with the
/// question whether its unit is active.
#[derive(Debug)]
pub struct Starting {
    pub unit: String,
    pub model_alias: String,
    pub model_path: String,
    pub timeout_secs: u64,
    /// Whether the unit had to be started.
    pub triggered: bool,
    /// What the server says its model is, if it was asked.
    pub identity: Option<Result<Option<String>, String>>,
}

/// What a `Starting` says.
#[verifier::ext_equal]
pub struct StartingView {
    pub unit: Seq<char>,
    pub model_alias: Seq<char>,
    pub model_path: Seq<char>,
    pub timeout_secs: u64,
    pub triggered: bool,
    pub identity: Option<Result<Option<Seq<char>>, Seq<char>>>,
}

impl View for Starting {
    type V = StartingView;

    open spec fn view(&self) -> StartingView {
        StartingView {
            unit: self.unit@,
            model_alias: self.model_alias@,
            model_path: self.model_path@,
            timeout_secs: self.timeout_secs,
            triggered: self.triggered,
            identity: match self.identity {
                Some(identity) => Some(identity_view(identity)),
                None => None,
            },
        }
    }
}

/// What `ensure-started` does next.
#[derive(Debug)]
pub enum StartStep {
    /// Start the unit; then `Starting::unit_started`.
    StartUnit(Starting),
    /// Wait until the server is alive; then `Starting::server_waited`.
    WaitForServer(Starting),
    /// Ask the server for its models; then `Starting::models_answered`.
    AskModels(Starting),
    /// Look at the unit; then `Starting::unit_shown`.
    ShowUnit(Starting),
    Done(EnsureStartedResponse),
}

/// What a `StartStep` says.
#[verifier::ext_equal]
pub enum StartStepView {
    StartUnit(StartingView),
    WaitForServer(StartingView),
    AskModels(StartingView),
    ShowUnit(StartingView),
    Done(EnsureStartedView),
}

impl View for StartStep {
    type V = StartStepView;

    open spec fn view(&self) -> StartStepView {
        match *self {
            StartStep::StartUnit(s) => StartStepView::StartUnit(s@),
            StartStep::WaitForServer(s) => StartStepView::WaitForServer(s@),
            StartStep::AskModels(s) => StartStepView::AskModels(s@),
            StartStep::ShowUnit(s) => StartStepView::ShowUnit(s@),
            StartStep::Done(response) => StartStepView::Done(response@),
        }
    }
}

/// Whether a unit was found active; one that could not be asked about was not.
pub open spec fn is_active_answer(answer: Result<bool, String>) -> bool {
    answer matches Ok(active) && active
}

/// A server of which nothing is known yet.
pub open spec fn unstarted(
    unit: Seq<char>,
    model_alias: Seq<char>,
    model_path: Seq<char>,
    timeout_secs: u64,
) -> StartingView {
    StartingView { unit, model_alias, model_path, timeout_secs, triggered: false, identity: None }
}

/// What follows from whether the unit is active: one that is active is not started.
pub open spec fn after_active(s: StartingView, active: bool) -> StartStepView {
    if active {
        StartStepView::WaitForServer(StartingView { triggered: false, ..s })
    } else {
        StartStepView::StartUnit(s)
    }
}

/// What follows from starting the unit.
pub open spec fn after_start(s: StartingView, started: Result<(), Seq<char>>) -> StartStepView {
    match started {
        Ok(_) => StartStepView::WaitForServer(StartingView { triggered: true, ..s }),
        Err(error) => StartStepView::Done(
            start_failure(s.unit, s.model_alias, s.model_path, error),
        ),
    }
}

/// What follows from waiting for the server.
pub open spec fn after_wait(s: StartingView, ready: bool) -> StartStepView {
    if ready {
        StartStepView::AskModels(s)
    } else {
        StartStepView::ShowUnit(StartingView { identity: None, ..s })
    }
}

/// What follows from the answer about the models.
pub open spec fn after_models(
    s: StartingView,
    answer: Result<Seq<char>, Seq<char>>,
) -> StartStepView {
    StartStepView::ShowUnit(StartingView { identity: Some(named_model(answer)), ..s })
}

/// The answer to `ensure-started`, from what systemd says of the unit at the end.
pub open spec fn after_shown(
    s: StartingView,
    shown: Result<Map<Seq<char>, Seq<char>>, Seq<char>>,
) -> EnsureStartedView {
    start_outcome(
        s.model_alias,
        s.model_path,
        s.timeout_secs,
        s.triggered,
        s.identity,
        unit_state(s.unit, shown),
    )
}

/// How many steps there are at most before the answer.
pub open spec fn steps_left(step: StartStepView) -> nat {
    match step {
        StartStepView::StartUnit(_) => 4,
        StartStepView::WaitForServer(_) => 3,
        StartStepView::AskModels(_) => 2,
        StartStepView::ShowUnit(_) => 1,
        StartStepView::Done(_) => 0,
    }
}

/// The whole of `ensure-started`, from everything that is answered on the way.
pub open spec fn start_run(
    s: StartingView,
    active: bool,
    started: Result<(), Seq<char>>,
    ready: bool,
    answer: Result<Seq<char>, Seq<char>>,
    shown: Result<Map<Seq<char>, Seq<char>>, Seq<char>>,
) -> EnsureStartedView {
    let running = match after_active(s, active) {
        StartStepView::StartUnit(s) => after_start(s, started),
        step => step,
    };
    match running {
        StartStepView::WaitForServer(s) => match after_wait(s, ready) {
            StartStepView::AskModels(s) => after_shown(
                after_models(s, answer)->ShowUnit_0,
                shown,
            ),
            step => after_shown(step->ShowUnit_0, shown),
        },
        step => step->Done_0,
    }
}

impl Starting {
    pub fn new(unit: &str, model_alias: &str, model_path: &str, timeout_secs: u64) -> (r: Starting)
        ensures
            r@ == unstarted(unit@, model_alias@, model_path@, timeout_secs),
    {
        Starting {
            unit: unit.to_string(),
            model_alias: model_alias.to_string(),
            model_path: model_path.to_string(),
            timeout_secs,
            triggered: false,
            identity: None,
        }
    }

    /// Takes whether the unit is active.
    pub fn active_found(self, answer: Result<bool, String>) -> (r: StartStep)
        ensures
            r@ == after_active(self@, is_active_answer(answer)),
    {
        let mut s = self;
        let active = match answer {
            Ok(active) => active,
            Err(_) => false,
        };
        if active {
            s.triggered = false;
            StartStep::WaitForServer(s)
        } else {
            StartStep::StartUnit(s)
        }
    }

    /// Takes what came of starting the unit.
    pub fn unit_started(self, answer: Result<(), String>) -> (r: StartStep)
        ensures
            r@ == after_start(self@, done_view(answer)),
    {
        let mut s = self;
        match answer {
            Ok(_) => {
                s.triggered = true;
                StartStep::WaitForServer(s)
            },
            Err(error) => StartStep::Done(
                start_failure_response(
                    s.unit.as_str(),
                    s.model_alias.as_str(),
                    s.model_path.as_str(),
                    error,
                ),
            ),
        }
    }

    /// Takes whether the server was alive in time.
    pub fn server_waited(self, ready: bool) -> (r: StartStep)
        ensures
            r@ == after_wait(self@, ready),
    {
        let mut s = self;
        if ready {
            StartStep::AskModels(s)
        } else {
            s.identity = None;
            StartStep::ShowUnit(s)
        }
    }

    /// Takes the answer of the server about its models.
    pub fn models_answered(self, answer: Result<String, String>) -> (r: StartStep)
        ensures
            r@ == after_models(self@, answer_view(answer)),
    {
        let mut s = self;
        s.identity = Some(model_identity(answer));
        StartStep::ShowUnit(s)
    }

    /// Takes what systemd says of the unit, and gives the answer to `ensure-started`.
    pub fn unit_shown(self, shown: Result<TextTable, String>) -> (r: EnsureStartedResponse)
        ensures
            r@ == after_shown(self@, shown_view(shown)),
    {
        let info = unit_info(self.unit.as_str(), shown);
        start_response(
            self.model_alias.as_str(),
            self.model_path.as_str(),
            self.timeout_secs,
            self.triggered,
            self.identity,
            info,
        )
    }
}

/// A lease that is to be acquired. It begins with the question whether the unit that holds it is
/// active already.
#[derive(Debug)]
pub struct LeaseAsked {
    pub unit: String,
    pub ttl_secs: u64,
}

/// A lease of which it is known whether it is a renewal. Next, its unit is replaced.
#[derive(Debug)]
pub struct LeaseFound {
    pub unit: String,
    pub ttl_secs: u64,
    pub was_active: bool,
}

/// A lease whose unit was made. Next, its unit is looked at.
#[derive(Debug)]
pub struct LeaseMade {
    pub unit: String,
    pub ttl_secs: u64,
    pub was_active: bool,
}

/// What `lease acquire` does after the unit was replaced.
#[derive(Debug)]
pub enum LeaseStep {
    /// Look at the unit; then `LeaseMade::unit_shown`.
    ShowUnit(LeaseMade),
    Done(LeaseAcquireResponse),
}

impl LeaseAsked {
    /// A lease for the time that was asked for, within the bounds.
    pub fn new(unit: &str, ttl_secs: u64) -> (r: LeaseAsked)
        ensures
            r.unit@ == unit@,
            r.ttl_secs == lease_ttl(ttl_secs),
    {
        let ttl: u64 = if ttl_secs < 60 {
            60
        } else if ttl_secs > 86_400 {
            86_400
        } else {
            ttl_secs
        };
        LeaseAsked { unit: unit.to_string(), ttl_secs: ttl }
    }

    /// Takes whether the unit is active.
    pub fn active_found(self, answer: Result<bool, String>) -> (r: LeaseFound)
        ensures
            r.unit@ == self.unit@,
            r.ttl_secs == self.ttl_secs,
            r.was_active == is_active_answer(answer),
    {
        let was_active = match answer {
            Ok(active) => active,
            Err(_) => false,
        };
        LeaseFound { unit: self.unit, ttl_secs: self.ttl_secs, was_active }
    }
}

impl LeaseFound {
    /// Takes what came of replacing the unit. It is looked at only after it was made.
    pub fn unit_replaced(self, answer: Result<(), String>) -> (r: LeaseStep)
        ensures
            match (done_view(answer), r) {
                (Ok(_), LeaseStep::ShowUnit(made)) => {
                    &&& made.unit@ == self.unit@
                    &&& made.ttl_secs == self.ttl_secs
                    &&& made.was_active == self.was_active
                },
                (Err(error), LeaseStep::Done(response)) => response@ == lease_acquired(
                    self.ttl_secs,
                    self.was_active,
                    Err(error),
                ),
                _ => false,
            },
    {
        match answer {
            Ok(_) => LeaseStep::ShowUnit(
                LeaseMade {
                    unit: self.unit,
                    ttl_secs: self.ttl_secs,
                    was_active: self.was_active,
                },
            ),
            Err(error) => LeaseStep::Done(
                lease_acquire_response(self.ttl_secs, self.was_active, Err(error)),
            ),
        }
    }
}

impl LeaseMade {
    /// Takes what systemd says of the unit, and gives the answer to `lease acquire`.
    pub fn unit_shown(self, shown: Result<TextTable, String>) -> (r: LeaseAcquireResponse)
        ensures
            r@ == lease_acquired(
                self.ttl_secs,
                self.was_active,
                Ok(unit_state(self.unit@, shown_view(shown))),
            ),
    {
        let info = unit_info(self.unit.as_str(), shown);
        lease_acquire_response(self.ttl_secs, self.was_active, Ok(info))
    }
}

/// A lease whose unit was stopped. Next, its unit is looked at.
#[derive(Debug)]
pub struct LeaseStopped {
    pub unit: String,
}

/// What `lease release` does after the unit was stopped.
#[derive(Debug)]
pub enum ReleaseStep {
    /// Look at the unit; then `LeaseStopped::unit_shown`.
    ShowUnit(LeaseStopped),
    Done(LeaseReleaseResponse),
}

/// Takes what came of stopping the unit that holds the lease. It is looked at only after it was
/// stopped.
pub fn unit_stopped(unit: &str, answer: Result<(), String>) -> (r: ReleaseStep)
    ensures
        match (done_view(answer), r) {
            (Ok(_), ReleaseStep::ShowUnit(stopped)) => stopped.unit@ == unit@,
            (Err(error), ReleaseStep::Done(response)) => response@ == lease_released(Err(error)),
            _ => false,
        },
{
    match answer {
        Ok(_) => ReleaseStep::ShowUnit(LeaseStopped { unit: unit.to_string() }),
        Err(error) => ReleaseStep::Done(lease_release_response(Err(error))),
    }
}

impl LeaseStopped {
    /// Takes what systemd says of the unit, and gives the answer to `lease release`.
    pub fn unit_shown(self, shown: Result<TextTable, String>) -> (r: LeaseReleaseResponse)
        ensures
            r@ == lease_released(Ok(unit_state(self.unit@, shown_view(shown)))),
    {
        lease_release_response(Ok(unit_info(self.unit.as_str(), shown)))
    }
}

/// The unit is started only where it was not found active, and at most once: no later step leads to
/// a start.
pub proof fn active_unit_is_never_started(
    s: StartingView,
    active: bool,
    started: Result<(), Seq<char>>,
    ready: bool,
    answer: Result<Seq<char>, Seq<char>>,
)
    ensures
        after_active(s, active) is StartUnit <==> !active,
        !(after_start(s, started) is StartUnit),
        !(after_wait(s, ready) is StartUnit),
        !(after_models(s, answer) is StartUnit),
{
}

/// The server is asked for its models only after it was alive in time, and the unit is looked at
/// after everything else.
pub proof fn order_of_starting(
    s: StartingView,
    active: bool,
    started: Result<(), Seq<char>>,
    ready: bool,
    answer: Result<Seq<char>, Seq<char>>,
)
    ensures
        after_active(s, active) is StartUnit || after_active(s, active) is WaitForServer,
        after_start(s, started) is WaitForServer || after_start(s, started) is Done,
        after_wait(s, ready) is AskModels <==> ready,
        after_wait(s, ready) is ShowUnit <==> !ready,
        after_models(s, answer) is ShowUnit,
        steps_left(after_start(s, started)) < steps_left(StartStepView::StartUnit(s)),
        steps_left(after_wait(s, ready)) < steps_left(StartStepView::WaitForServer(s)),
        steps_left(after_models(s, answer)) < steps_left(StartStepView::AskModels(s)),
{
}

/// What the steps come to: an error if the unit could not be started; otherwise the verdict on what
/// the server said, with whether the unit had to be started.
pub proof fn steps_come_to_the_answer(
    unit: Seq<char>,
    alias: Seq<char>,
    path: Seq<char>,
    timeout_secs: u64,
    active: bool,
    started: Result<(), Seq<char>>,
    ready: bool,
    answer: Result<Seq<char>, Seq<char>>,
    shown: Result<Map<Seq<char>, Seq<char>>, Seq<char>>,
)
    ensures
        start_run(
            unstarted(unit, alias, path, timeout_secs),
            active,
            started,
            ready,
            answer,
            shown,
        ) == match (active, started) {
            (false, Err(error)) => start_failure(unit, alias, path, error),
            _ => start_outcome(
                alias,
                path,
                timeout_secs,
                !active,
                if ready {
                    Some(named_model(answer))
                } else {
                    None
                },
                unit_state(unit, shown),
            ),
        },
{
}

/// Whether two servers that are to run are the same but for what is known of them so far.
pub open spec fn same_server(a: Starting, b: Starting) -> bool {
    &&& a.unit@ == b.unit@
    &&& a.model_alias@ == b.model_alias@
    &&& a.model_path@ == b.model_path@
    &&& a.timeout_secs == b.timeout_secs
}

/// A server that is to run is the one that was asked for, and nothing is known of it at first.
pub proof fn starting_begins_with_nothing(
    unit: &str,
    alias: &str,
    path: &str,
    timeout_secs: u64,
    s: Starting,
)
    requires
        call_ensures(Starting::new, (unit, alias, path, timeout_secs), s),
    ensures
        s.unit@ == unit@ && s.model_alias@ == alias@ && s.model_path@ == path@,
        s.timeout_secs == timeout_secs,
        !s.triggered && s.identity is None,
{
}

/// A unit that is found active is waited for, with nothing triggered; one that is not, or cannot be
/// asked about, is started.
pub proof fn active_units_are_waited_for(
    s: Starting,
    answer: Result<bool, String>,
    step: StartStep,
)
    requires
        call_ensures(Starting::active_found, (s, answer), step),
    ensures
        match step {
            StartStep::WaitForServer(next) => {
                &&& answer matches Ok(active) && active
                &&& same_server(next, s)
                &&& !next.triggered
            },
            StartStep::StartUnit(next) => {
                &&& !(answer matches Ok(active) && active)
                &&& same_server(next, s)
            },
            _ => false,
        },
{
}

/// A unit that was started is waited for, and counts as triggered; one that could not be is the end,
/// for that reason.
pub proof fn started_units_are_waited_for(
    s: Starting,
    answer: Result<(), String>,
    step: StartStep,
)
    requires
        call_ensures(Starting::unit_started, (s, answer), step),
    ensures
        match (answer, step) {
            (Ok(_), StartStep::WaitForServer(next)) => same_server(next, s) && next.triggered,
            (Err(error), StartStep::Done(r)) => {
                &&& r.status is Error
                &&& r.message@ == "failed to start llama-server: "@ + error@
                &&& r.model_alias@ == s.model_alias@
                &&& r.model_path@ == s.model_path@
                &&& !r.startup_triggered && !r.server_ready && !r.model_verified
                &&& r.llama_server matches Some(unit)
                &&& unit.unit_name@ == s.unit@
                &&& unit.active_state@ == "failed"@
            },
            _ => false,
        },
{
}

/// Only a server that was alive in time is asked for its models; in either case it is known whether it
/// had to be started. What it then says of its model is kept.
pub proof fn alive_servers_are_asked(
    s: Starting,
    ready: bool,
    waited: StartStep,
    answer: Result<String, String>,
    answered: StartStep,
    identity: Result<Option<String>, String>,
)
    requires
        call_ensures(Starting::server_waited, (s, ready), waited),
        call_ensures(Starting::models_answered, (s, answer), answered),
        call_ensures(model_identity, (answer,), identity),
    ensures
        match waited {
            StartStep::AskModels(next) => ready && same_server(next, s) && next.triggered
                == s.triggered,
            StartStep::ShowUnit(next) => !ready && same_server(next, s) && next.triggered
                == s.triggered && next.identity is None,
            _ => false,
        },
        match answered {
            StartStep::ShowUnit(next) => {
                &&& same_server(next, s)
                &&& next.triggered == s.triggered
                &&& next.identity matches Some(kept)
                &&& identity_view(kept) == identity_view(identity)
            },
            _ => false,
        },
{
}

/// The answer to `ensure-started` is about the server that was asked for, and its unit as systemd shows
/// it. It is a success exactly if the server named a model that holds the expected one or is held by
/// it.
pub proof fn last_look_gives_the_answer(
    s: Starting,
    shown: Result<TextTable, String>,
    r: EnsureStartedResponse,
)
    requires
        call_ensures(Starting::unit_shown, (s, shown), r),
    ensures
        r.model_alias@ == s.model_alias@,
        r.model_path@ == s.model_path@,
        r.startup_triggered == s.triggered,
        r.server_ready <==> s.identity is Some,
        r.status is Okay <==> (s.identity matches Some(Ok(Some(named))) && (occurs(
            named@,
            s.model_path@,
        ) || occurs(s.model_path@, named@))),
        r.model_verified <==> r.status is Okay,
        r.llama_server matches Some(unit) && told_as_shown(unit, s.unit@, shown),
{
}

/// A lease is asked for between a minute and a day, and just as long as was asked within that. It is a
/// renewal if the unit is found active. Its unit is looked at only after it was made, and the answer
/// is about that unit as systemd shows it.
pub proof fn leases_are_acquired_in_order(
    unit: &str,
    ttl_secs: u64,
    asked: LeaseAsked,
    answer: Result<bool, String>,
    found: LeaseFound,
    outcome: Result<(), String>,
    step: LeaseStep,
)
    requires
        call_ensures(LeaseAsked::new, (unit, ttl_secs), asked),
        call_ensures(LeaseAsked::active_found, (asked, answer), found),
        call_ensures(LeaseFound::unit_replaced, (found, outcome), step),
    ensures
        found.unit@ == unit@,
        ttl_secs < 60 ==> found.ttl_secs == 60,
        ttl_secs > 86_400 ==> found.ttl_secs == 86_400,
        60 <= ttl_secs <= 86_400 ==> found.ttl_secs == ttl_secs,
        found.was_active <==> (answer matches Ok(active) && active),
        match (outcome, step) {
            (Ok(_), LeaseStep::ShowUnit(made)) => made.unit@ == unit@ && made.ttl_secs
                == found.ttl_secs && made.was_active == found.was_active,
            (Err(error), LeaseStep::Done(r)) => {
                &&& r.status is Error
                &&& r.message@ == "failed to acquire lease: "@ + error@
                &&& r.ttl_secs == found.ttl_secs
                &&& !r.renewed
                &&& r.inhibit_holder is None
            },
            _ => false,
        },
{
}

/// A lease whose unit was made is held exactly if systemd shows the unit active, and renewed if it was
/// active before.
pub proof fn made_leases_are_told_as_shown(
    made: LeaseMade,
    shown: Result<TextTable, String>,
    r: LeaseAcquireResponse,
)
    requires
        call_ensures(LeaseMade::unit_shown, (made, shown), r),
    ensures
        r.ttl_secs == made.ttl_secs,
        r.inhibit_holder matches Some(unit) && told_as_shown(unit, made.unit@, shown),
        r.status is Okay <==> (shown matches Ok(table) && table@.contains_key("ActiveState"@)
            && table@["ActiveState"@] == "active"@),
        r.renewed <==> r.status is Okay && made.was_active,
{
    reveal_strlit("active");
    reveal_strlit("unknown");
    reveal_strlit("error");
    assert("active"@.len() == 6);
    assert("unknown"@.len() == 7);
    assert("error"@.len() == 5);
}

/// A lease that was released is looked at afterwards, and told of as systemd shows it; one that could
/// not be is told of as that.
pub proof fn leases_are_released_in_order(
    unit: &str,
    outcome: Result<(), String>,
    step: ReleaseStep,
    stopped: LeaseStopped,
    shown: Result<TextTable, String>,
    r: LeaseReleaseResponse,
)
    requires
        call_ensures(unit_stopped, (unit, outcome), step),
        call_ensures(LeaseStopped::unit_shown, (stopped, shown), r),
    ensures
        match (outcome, step) {
            (Ok(_), ReleaseStep::ShowUnit(next)) => next.unit@ == unit@,
            (Err(error), ReleaseStep::Done(told)) => {
                &&& told.status is Error
                &&& told.message@ == "failed to release lease: "@ + error@
                &&& told.inhibit_holder is None
            },
            _ => false,
        },
        r.status is Okay,
        r.message@ == "lease released"@,
        r.inhibit_holder matches Some(holder) && told_as_shown(holder, stopped.unit@, shown),
{
}

} // verus!
