//! The lifecycle of the backend: asleep, starting, ready or failed.
//!
//! A `LifecycleManager` keeps the published status and the state of the one bootstrap that may be
//! running. What has to be done in the outside world (probing SSH, sending a wake request, asking
//! the helper, opening the tunnel, waiting) is handed to the caller step by step: each method says
//! what to do next, and takes what came of it.

use vstd::prelude::*;

use crate::numeral::number;
use crate::table::{number_or, TextTable};
use crate::text::text_view;

verus! {

/// A point in time, in whole seconds of the Unix clock.
#[derive(Clone, Copy, Debug, PartialEq, Eq, Structural)]
pub struct Timestamp(pub u64);

impl Timestamp {
    pub fn new(unix_seconds: u64) -> (r: Timestamp)
        ensures
            r.0 == unix_seconds,
    {
        Timestamp(unix_seconds)
    }

    pub fn unix_seconds(self) -> (r: u64)
        ensures
            r == self.0,
    {
        self.0
    }
}

#[derive(Clone, Copy, Debug, PartialEq, Eq, Structural)]
pub enum LifecycleState {
    Cold,
    Warming,
    Ready,
    Error,
}

#[derive(Clone, Copy, Debug, PartialEq, Eq, Structural)]
pub enum CapabilityState {
    Ready,
    Degraded,
}

#[derive(Clone, Copy, Debug, PartialEq, Eq, Structural)]
pub enum TunnelState {
    Down,
    Connecting,
    Ready,
}

#[derive(Clone, Copy, Debug, PartialEq, Eq, Structural)]
pub enum UnitState {
    Unknown,
    Inactive,
    Activating,
    Active,
    Failed,
}

/// The name of a state of the backend in JSON.
pub open spec fn lifecycle_name(state: LifecycleState) -> Seq<char> {
    match state {
        LifecycleState::Cold => "cold"@,
        LifecycleState::Warming => "warming"@,
        LifecycleState::Ready => "ready"@,
        LifecycleState::Error => "error"@,
    }
}

impl LifecycleState {
    pub fn as_str(self) -> (r: &'static str)
        ensures
            r@ == lifecycle_name(self),
    {
        match self {
            LifecycleState::Cold => "cold",
            LifecycleState::Warming => "warming",
            LifecycleState::Ready => "ready",
            LifecycleState::Error => "error",
        }
    }
}

/// The name of a state of a capability in JSON.
pub open spec fn capability_name(state: CapabilityState) -> Seq<char> {
    match state {
        CapabilityState::Ready => "ready"@,
        CapabilityState::Degraded => "degraded"@,
    }
}

impl CapabilityState {
    pub fn as_str(self) -> (r: &'static str)
        ensures
            r@ == capability_name(self),
    {
        match self {
            CapabilityState::Ready => "ready",
            CapabilityState::Degraded => "degraded",
        }
    }
}

/// The name of a state of the tunnel in JSON.
pub open spec fn tunnel_name(state: TunnelState) -> Seq<char> {
    match state {
        TunnelState::Down => "down"@,
        TunnelState::Connecting => "connecting"@,
        TunnelState::Ready => "ready"@,
    }
}

impl TunnelState {
    pub fn as_str(self) -> (r: &'static str)
        ensures
            r@ == tunnel_name(self),
    {
        match self {
            TunnelState::Down => "down",
            TunnelState::Connecting => "connecting",
            TunnelState::Ready => "ready",
        }
    }
}

/// The name of a state of a unit in JSON.
pub open spec fn unit_name(state: UnitState) -> Seq<char> {
    match state {
        UnitState::Unknown => "unknown"@,
        UnitState::Inactive => "inactive"@,
        UnitState::Activating => "activating"@,
        UnitState::Active => "active"@,
        UnitState::Failed => "failed"@,
    }
}

impl UnitState {
    pub fn as_str(self) -> (r: &'static str)
        ensures
            r@ == unit_name(self),
    {
        match self {
            UnitState::Unknown => "unknown",
            UnitState::Inactive => "inactive",
            UnitState::Activating => "activating",
            UnitState::Active => "active",
            UnitState::Failed => "failed",
        }
    }
}

/// What a client asks for.
#[derive(Clone, Copy, Debug, PartialEq, Eq, Structural)]
pub enum LifecycleRequest {
    Chat,
    Embeddings,
}

/// Why the backend could not be made ready.
#[derive(Debug, PartialEq, Eq)]
pub struct LifecycleError {
    pub message: String,
}

impl View for LifecycleError {
    type V = Seq<char>;

    open spec fn view(&self) -> Seq<char> {
        self.message@
    }
}

impl Clone for LifecycleError {
    fn clone(&self) -> (r: LifecycleError)
        ensures
            r == *self,
    {
        LifecycleError { message: self.message.clone() }
    }
}

impl LifecycleError {
    pub fn new(message: &str) -> (r: LifecycleError)
        ensures
            r@ == message@,
    {
        LifecycleError { message: message.to_string() }
    }
}

/// What is known of the backend.
#[derive(Debug, PartialEq, Eq)]
pub struct BackendStatus {
    pub lifecycle: LifecycleState,
    pub chat: CapabilityState,
    pub embeddings: CapabilityState,
    pub embeddings_reason: Option<String>,
    pub tunnel: TunnelState,
    pub last_wake_attempt_at: Option<Timestamp>,
    pub lease_expires_at: Option<Timestamp>,
    pub llama_server_unit: UnitState,
    pub inhibit_unit: UnitState,
}

/// What a `BackendStatus` says.
#[verifier::ext_equal]
pub struct BackendStatusView {
    pub lifecycle: LifecycleState,
    pub chat: CapabilityState,
    pub embeddings: CapabilityState,
    pub embeddings_reason: Option<Seq<char>>,
    pub tunnel: TunnelState,
    pub last_wake_attempt_at: Option<Timestamp>,
    pub lease_expires_at: Option<Timestamp>,
    pub llama_server_unit: UnitState,
    pub inhibit_unit: UnitState,
}

/// A result with the message of its error.
pub open spec fn result_view<T>(result: Result<T, LifecycleError>) -> Result<T, Seq<char>> {
    match result {
        Ok(value) => Ok(value),
        Err(error) => Err(error@),
    }
}

impl View for BackendStatus {
    type V = BackendStatusView;

    open spec fn view(&self) -> BackendStatusView {
        BackendStatusView {
            lifecycle: self.lifecycle,
            chat: self.chat,
            embeddings: self.embeddings,
            embeddings_reason: text_view(self.embeddings_reason),
            tunnel: self.tunnel,
            last_wake_attempt_at: self.last_wake_attempt_at,
            lease_expires_at: self.lease_expires_at,
            llama_server_unit: self.llama_server_unit,
            inhibit_unit: self.inhibit_unit,
        }
    }
}

impl Clone for BackendStatus {
    fn clone(&self) -> (r: BackendStatus)
        ensures
            r@ == self@,
    {
        BackendStatus {
            lifecycle: self.lifecycle,
            chat: self.chat,
            embeddings: self.embeddings,
            embeddings_reason: match &self.embeddings_reason {
                Some(reason) => Some(reason.clone()),
                None => None,
            },
            tunnel: self.tunnel,
            last_wake_attempt_at: self.last_wake_attempt_at,
            lease_expires_at: self.lease_expires_at,
            llama_server_unit: self.llama_server_unit,
            inhibit_unit: self.inhibit_unit,
        }
    }
}

/// A backend of which nothing is known: asleep, with both capabilities expected.
pub open spec fn unknown_backend() -> BackendStatusView {
    BackendStatusView {
        lifecycle: LifecycleState::Cold,
        chat: CapabilityState::Ready,
        embeddings: CapabilityState::Ready,
        embeddings_reason: None,
        tunnel: TunnelState::Down,
        last_wake_attempt_at: None,
        lease_expires_at: None,
        llama_server_unit: UnitState::Unknown,
        inhibit_unit: UnitState::Unknown,
    }
}

impl Default for BackendStatus {
    fn default() -> (r: BackendStatus)
        ensures
            r@ == unknown_backend(),
    {
        BackendStatus {
            lifecycle: LifecycleState::Cold,
            chat: CapabilityState::Ready,
            embeddings: CapabilityState::Ready,
            embeddings_reason: None,
            tunnel: TunnelState::Down,
            last_wake_attempt_at: None,
            lease_expires_at: None,
            llama_server_unit: UnitState::Unknown,
            inhibit_unit: UnitState::Unknown,
        }
    }
}

/// What the helper on the host reports.
#[derive(Debug, PartialEq, Eq)]
pub struct ObservedBackendState {
    pub lifecycle: LifecycleState,
    pub chat: CapabilityState,
    pub embeddings: CapabilityState,
    pub embeddings_reason: Option<String>,
    pub error: Option<String>,
    pub llama_server_unit: UnitState,
    pub inhibit_unit: UnitState,
}

/// What an `ObservedBackendState` says.
#[verifier::ext_equal]
pub struct ObservedView {
    pub lifecycle: LifecycleState,
    pub chat: CapabilityState,
    pub embeddings: CapabilityState,
    pub embeddings_reason: Option<Seq<char>>,
    pub error: Option<Seq<char>>,
    pub llama_server_unit: UnitState,
    pub inhibit_unit: UnitState,
}

impl View for ObservedBackendState {
    type V = ObservedView;

    open spec fn view(&self) -> ObservedView {
        ObservedView {
            lifecycle: self.lifecycle,
            chat: self.chat,
            embeddings: self.embeddings,
            embeddings_reason: text_view(self.embeddings_reason),
            error: text_view(self.error),
            llama_server_unit: self.llama_server_unit,
            inhibit_unit: self.inhibit_unit,
        }
    }
}

/// What a request is told about the backend.
#[derive(Debug, PartialEq, Eq)]
pub enum LifecycleDecision {
    Ready(BackendStatus),
    Warming { status: BackendStatus, retry_after_secs: u64 },
    Failed { status: BackendStatus, error: LifecycleError },
}

/// What a `LifecycleDecision` says.
#[verifier::ext_equal]
pub enum DecisionView {
    Ready(BackendStatusView),
    Warming { status: BackendStatusView, retry_after_secs: u64 },
    Failed { status: BackendStatusView, error: Seq<char> },
}

impl View for LifecycleDecision {
    type V = DecisionView;

    open spec fn view(&self) -> DecisionView {
        match *self {
            LifecycleDecision::Ready(status) => DecisionView::Ready(status@),
            LifecycleDecision::Warming { status, retry_after_secs } => DecisionView::Warming {
                status: status@,
                retry_after_secs,
            },
            LifecycleDecision::Failed { status, error } => DecisionView::Failed {
                status: status@,
                error: error@,
            },
        }
    }
}

/// The status that goes with a decision.
pub open spec fn decided_status(decision: DecisionView) -> BackendStatusView {
    match decision {
        DecisionView::Ready(status) => status,
        DecisionView::Warming { status, .. } => status,
        DecisionView::Failed { status, .. } => status,
    }
}

/// How long to wait, and when to give up.
#[derive(Clone, Copy, Debug, PartialEq, Eq, Structural)]
pub struct LifecycleTiming {
    pub cold_wait_budget_secs: u64,
    pub hard_boot_deadline_secs: u64,
    pub bootstrap_poll_interval_millis: u64,
    pub retry_after_secs: u64,
}

/// The timing that the environment asks for.
pub open spec fn timing_setting(env: Map<Seq<char>, Seq<char>>) -> LifecycleTiming {
    LifecycleTiming {
        cold_wait_budget_secs: number_or(env, "COLD_WAIT_BUDGET_SECS"@, u64::MAX as nat, 90) as u64,
        hard_boot_deadline_secs: number_or(env, "HARD_BOOT_DEADLINE_SECS"@, u64::MAX as nat, 300) as u64,
        bootstrap_poll_interval_millis: number_or(env, "BOOTSTRAP_POLL_INTERVAL_MS"@, u64::MAX as nat, 1_000) as u64,
        retry_after_secs: number_or(env, "RETRY_AFTER_SECS"@, u64::MAX as nat, 10) as u64,
    }
}

impl LifecycleTiming {
    /// The timing that the environment asks for.
    pub fn from_env(env: &TextTable) -> (r: LifecycleTiming)
        ensures
            r == timing_setting(env@),
    {
        LifecycleTiming {
            cold_wait_budget_secs: env.number_or("COLD_WAIT_BUDGET_SECS", u64::MAX, 90),
            hard_boot_deadline_secs: env.number_or("HARD_BOOT_DEADLINE_SECS", u64::MAX, 300),
            bootstrap_poll_interval_millis: env.number_or("BOOTSTRAP_POLL_INTERVAL_MS", u64::MAX, 1_000),
            retry_after_secs: env.number_or("RETRY_AFTER_SECS", u64::MAX, 10),
        }
    }
}

/// Whether a backend that cannot be reached is to be woken: not while it is starting already.
pub open spec fn wakes(lifecycle: LifecycleState) -> bool {
    lifecycle is Cold || lifecycle is Ready || lifecycle is Error
}

fn should_request_wake(lifecycle: LifecycleState) -> (r: bool)
    ensures
        r == wakes(lifecycle),
{
    matches!(lifecycle, LifecycleState::Cold | LifecycleState::Ready | LifecycleState::Error)
}

/// Whether requests can be sent to the backend.
pub open spec fn usable(status: BackendStatusView) -> bool {
    status.lifecycle is Ready && status.tunnel is Ready
}

/// Whether requests can be sent to the backend.
pub fn backend_is_ready(status: &BackendStatus) -> (r: bool)
    ensures
        r == usable(status@),
{
    matches!(status.lifecycle, LifecycleState::Ready) && matches!(status.tunnel, TunnelState::Ready)
}

/// How much a request asks of the backend: embeddings more than chat.
pub open spec fn priority(request: LifecycleRequest) -> int {
    match request {
        LifecycleRequest::Chat => 0,
        LifecycleRequest::Embeddings => 1,
    }
}

fn request_priority(request: LifecycleRequest) -> (r: u8)
    ensures
        r == priority(request),
{
    match request {
        LifecycleRequest::Chat => 0,
        LifecycleRequest::Embeddings => 1,
    }
}

/// The status of a backend that failed.
pub open spec fn failing(status: BackendStatusView) -> BackendStatusView {
    BackendStatusView { lifecycle: LifecycleState::Error, tunnel: TunnelState::Down, ..status }
}

/// The status of a backend that is starting and has no tunnel.
pub open spec fn starting(status: BackendStatusView) -> BackendStatusView {
    BackendStatusView { lifecycle: LifecycleState::Warming, tunnel: TunnelState::Down, ..status }
}

/// What a waiting request is told: a status from before the bootstrap is not passed on.
pub open spec fn waiting_status(status: BackendStatusView, stale: bool) -> BackendStatusView {
    if stale {
        starting(status)
    } else {
        status
    }
}

fn bootstrap_wait_status(status: BackendStatus, stale: bool) -> (r: BackendStatus)
    ensures
        r@ == waiting_status(status@, stale),
{
    let mut status = status;
    if stale {
        status.lifecycle = LifecycleState::Warming;
        status.tunnel = TunnelState::Down;
    }
    status
}

/// One look at the backend: what it is for, and the status it starts from.
#[derive(Debug, PartialEq, Eq)]
pub struct Observation {
    /// The request in whose name the host may be woken, if it may.
    pub wake_request: Option<LifecycleRequest>,
    /// What the helper is asked to provide.
    pub observe_request: LifecycleRequest,
    pub status: BackendStatus,
    pub retry_after_secs: u64,
}

/// What an `Observation` says.
#[verifier::ext_equal]
pub struct ObservationView {
    pub wake_request: Option<LifecycleRequest>,
    pub observe_request: LifecycleRequest,
    pub status: BackendStatusView,
    pub retry_after_secs: u64,
}

impl View for Observation {
    type V = ObservationView;

    open spec fn view(&self) -> ObservationView {
        ObservationView {
            wake_request: self.wake_request,
            observe_request: self.observe_request,
            status: self.status@,
            retry_after_secs: self.retry_after_secs,
        }
    }
}

/// What an observation needs next. It begins with a probe of SSH.
#[derive(Debug, PartialEq, Eq)]
pub enum ObservationStep {
    /// Note the time and send a wake request; then `Observation::wake_sent`.
    Wake { request: LifecycleRequest, observation: Observation },
    /// Ask the helper for `observe_request`; then `Observation::backend_observed`.
    ObserveBackend(Observation),
    /// Open the tunnel; then `Observation::tunnel_ensured`.
    EnsureTunnel(Observation),
    Decided(LifecycleDecision),
}

/// What an `ObservationStep` says.
#[verifier::ext_equal]
pub enum StepView {
    Wake { request: LifecycleRequest, observation: ObservationView },
    ObserveBackend(ObservationView),
    EnsureTunnel(ObservationView),
    Decided(DecisionView),
}

impl View for ObservationStep {
    type V = StepView;

    open spec fn view(&self) -> StepView {
        match *self {
            ObservationStep::Wake { request, observation } => StepView::Wake {
                request,
                observation: observation@,
            },
            ObservationStep::ObserveBackend(observation) => StepView::ObserveBackend(observation@),
            ObservationStep::EnsureTunnel(observation) => StepView::EnsureTunnel(observation@),
            ObservationStep::Decided(decision) => StepView::Decided(decision@),
        }
    }
}

/// The decision that the backend failed.
pub open spec fn failure(status: BackendStatusView, error: Seq<char>) -> DecisionView {
    DecisionView::Failed { status: failing(status), error }
}

/// The decision that the backend is not ready yet.
pub open spec fn not_yet(seen: ObservationView, status: BackendStatusView) -> DecisionView {
    DecisionView::Warming { status, retry_after_secs: seen.retry_after_secs }
}

/// What follows from the probe of SSH.
pub open spec fn after_ssh(seen: ObservationView, probe: Result<bool, Seq<char>>) -> StepView {
    match probe {
        Err(error) => StepView::Decided(failure(seen.status, error)),
        Ok(true) => StepView::ObserveBackend(seen),
        Ok(false) => if seen.wake_request is Some && wakes(seen.status.lifecycle) {
            StepView::Wake { request: seen.wake_request->0, observation: seen }
        } else {
            StepView::Decided(not_yet(seen, starting(seen.status)))
        },
    }
}

/// What follows from a wake request that was sent at the time `at`.
pub open spec fn after_wake(
    seen: ObservationView,
    at: Timestamp,
    sent: Result<(), Seq<char>>,
) -> DecisionView {
    let status = BackendStatusView { last_wake_attempt_at: Some(at), ..seen.status };
    match sent {
        Err(error) => failure(status, error),
        Ok(_) => not_yet(seen, starting(status)),
    }
}

/// A status with what the helper reports put into it.
pub open spec fn with_report(status: BackendStatusView, report: ObservedView) -> BackendStatusView {
    BackendStatusView {
        lifecycle: report.lifecycle,
        chat: report.chat,
        embeddings: report.embeddings,
        embeddings_reason: report.embeddings_reason,
        llama_server_unit: report.llama_server_unit,
        inhibit_unit: report.inhibit_unit,
        ..status
    }
}

/// What follows from the report of the helper.
pub open spec fn after_report(
    seen: ObservationView,
    report: Result<ObservedView, Seq<char>>,
) -> StepView {
    match report {
        Err(error) => StepView::Decided(failure(seen.status, error)),
        Ok(report) => {
            let status = with_report(seen.status, report);
            match report.lifecycle {
                LifecycleState::Error => StepView::Decided(
                    failure(
                        status,
                        match report.error {
                            Some(error) => error,
                            None => "backend reported error state"@,
                        },
                    ),
                ),
                LifecycleState::Ready => StepView::EnsureTunnel(ObservationView { status, ..seen }),
                _ => StepView::Decided(
                    not_yet(seen, BackendStatusView { tunnel: TunnelState::Down, ..status }),
                ),
            }
        },
    }
}

/// What follows from opening the tunnel to a backend that is ready.
pub open spec fn after_tunnel(
    seen: ObservationView,
    tunnel: Result<TunnelState, Seq<char>>,
) -> DecisionView {
    match tunnel {
        Err(error) => failure(seen.status, error),
        Ok(TunnelState::Ready) => {
            let status = BackendStatusView { tunnel: TunnelState::Ready, ..seen.status };
            if usable(status) {
                DecisionView::Ready(status)
            } else {
                not_yet(seen, status)
            }
        },
        Ok(state) => not_yet(
            seen,
            BackendStatusView { lifecycle: LifecycleState::Warming, tunnel: state, ..seen.status },
        ),
    }
}

/// The whole of an observation, from everything that the outside world answers on the way.
pub open spec fn observed(
    seen: ObservationView,
    probe: Result<bool, Seq<char>>,
    at: Timestamp,
    sent: Result<(), Seq<char>>,
    report: Result<ObservedView, Seq<char>>,
    tunnel: Result<TunnelState, Seq<char>>,
) -> DecisionView {
    match after_ssh(seen, probe) {
        StepView::Decided(decision) => decision,
        StepView::Wake { .. } => after_wake(seen, at, sent),
        _ => match after_report(seen, report) {
            StepView::Decided(decision) => decision,
            step => after_tunnel(step->EnsureTunnel_0, tunnel),
        },
    }
}

impl Observation {
    /// Takes the answer of the SSH probe.
    pub fn ssh_probed(self, probe: Result<bool, LifecycleError>) -> (r: ObservationStep)
        ensures
            r@ == after_ssh(self@, result_view(probe)),
    {
        let mut seen = self;
        let ready = match probe {
            Ok(ready) => ready,
            Err(error) => {
                seen.status.lifecycle = LifecycleState::Error;
                seen.status.tunnel = TunnelState::Down;
                return ObservationStep::Decided(
                    LifecycleDecision::Failed { status: seen.status, error },
                );
            },
        };
        if ready {
            return ObservationStep::ObserveBackend(seen);
        }
        if should_request_wake(seen.status.lifecycle) {
            if let Some(request) = seen.wake_request {
                return ObservationStep::Wake { request, observation: seen };
            }
        }
        seen.status.lifecycle = LifecycleState::Warming;
        seen.status.tunnel = TunnelState::Down;
        ObservationStep::Decided(
            LifecycleDecision::Warming {
                status: seen.status,
                retry_after_secs: seen.retry_after_secs,
            },
        )
    }

    /// Takes what came of the wake request, and the time noted before it was sent.
    pub fn wake_sent(self, at: Timestamp, sent: Result<(), LifecycleError>) -> (r:
        LifecycleDecision)
        ensures
            r@ == after_wake(self@, at, result_view(sent)),
    {
        let mut seen = self;
        seen.status.last_wake_attempt_at = Some(at);
        seen.status.tunnel = TunnelState::Down;
        if let Err(error) = sent {
            seen.status.lifecycle = LifecycleState::Error;
            return LifecycleDecision::Failed { status: seen.status, error };
        }
        seen.status.lifecycle = LifecycleState::Warming;
        LifecycleDecision::Warming { status: seen.status, retry_after_secs: seen.retry_after_secs }
    }

    /// Takes the report of the helper.
    pub fn backend_observed(self, report: Result<ObservedBackendState, LifecycleError>) -> (r:
        ObservationStep)
        ensures
            r@ == after_report(
                self@,
                match report {
                    Ok(report) => Ok(report@),
                    Err(error) => Err(error@),
                },
            ),
    {
        let mut seen = self;
        let report = match report {
            Ok(report) => report,
            Err(error) => {
                seen.status.lifecycle = LifecycleState::Error;
                seen.status.tunnel = TunnelState::Down;
                return ObservationStep::Decided(
                    LifecycleDecision::Failed { status: seen.status, error },
                );
            },
        };
        seen.status.lifecycle = report.lifecycle;
        seen.status.chat = report.chat;
        seen.status.embeddings = report.embeddings;
        seen.status.embeddings_reason = report.embeddings_reason;
        seen.status.llama_server_unit = report.llama_server_unit;
        seen.status.inhibit_unit = report.inhibit_unit;
        if matches!(seen.status.lifecycle, LifecycleState::Error) {
            seen.status.tunnel = TunnelState::Down;
            let error = match report.error {
                Some(message) => LifecycleError { message },
                None => LifecycleError::new("backend reported error state"),
            };
            return ObservationStep::Decided(
                LifecycleDecision::Failed { status: seen.status, error },
            );
        }
        if !matches!(seen.status.lifecycle, LifecycleState::Ready) {
            seen.status.tunnel = TunnelState::Down;
            return ObservationStep::Decided(
                LifecycleDecision::Warming {
                    status: seen.status,
                    retry_after_secs: seen.retry_after_secs,
                },
            );
        }
        ObservationStep::EnsureTunnel(seen)
    }

    /// Takes the state of the tunnel to a backend that the helper reported ready.
    pub fn tunnel_ensured(self, tunnel: Result<TunnelState, LifecycleError>) -> (r:
        LifecycleDecision)
        ensures
            r@ == after_tunnel(self@, result_view(tunnel)),
    {
        let mut seen = self;
        match tunnel {
            Ok(state) => {
                seen.status.tunnel = state;
            },
            Err(error) => {
                seen.status.lifecycle = LifecycleState::Error;
                seen.status.tunnel = TunnelState::Down;
                return LifecycleDecision::Failed { status: seen.status, error };
            },
        }
        if !matches!(seen.status.tunnel, TunnelState::Ready) {
            seen.status.lifecycle = LifecycleState::Warming;
        }
        if backend_is_ready(&seen.status) {
            LifecycleDecision::Ready(seen.status)
        } else {
            LifecycleDecision::Warming {
                status: seen.status,
                retry_after_secs: seen.retry_after_secs,
            }
        }
    }
}

/// The one bootstrap that may be running.
#[derive(Debug, PartialEq, Eq)]
pub struct BootstrapState {
    pub active: bool,
    pub last_error: Option<LifecycleError>,
    pub observe_request: LifecycleRequest,
}

impl Default for BootstrapState {
    fn default() -> (r: BootstrapState)
        ensures
            !r.active,
            r.last_error is None,
            r.observe_request == LifecycleRequest::Chat,
    {
        BootstrapState {
            active: false,
            last_error: None,
            observe_request: LifecycleRequest::Chat,
        }
    }
}

/// The published status of the backend and the state of its bootstrap.
#[derive(Debug, PartialEq, Eq)]
pub struct LifecycleManager {
    pub status: BackendStatus,
    pub bootstrap: BootstrapState,
    pub timing: LifecycleTiming,
}

/// What a `LifecycleManager` holds.
#[verifier::ext_equal]
pub struct LifecycleView {
    pub status: BackendStatusView,
    pub active: bool,
    pub last_error: Option<Seq<char>>,
    pub observe_request: LifecycleRequest,
    pub timing: LifecycleTiming,
}

impl View for LifecycleManager {
    type V = LifecycleView;

    open spec fn view(&self) -> LifecycleView {
        LifecycleView {
            status: self.status@,
            active: self.bootstrap.active,
            last_error: match self.bootstrap.last_error {
                Some(error) => Some(error@),
                None => None,
            },
            observe_request: self.bootstrap.observe_request,
            timing: self.timing,
        }
    }
}

/// What a request for the backend needs next.
#[derive(Debug, PartialEq, Eq)]
pub enum EnsureStep {
    Decided(LifecycleDecision),
    /// Carry out this observation; then `LifecycleManager::first_observation`.
    Observe(Observation),
    /// Wait for the running bootstrap, by `LifecycleManager::wait_step`.
    Wait,
}

/// What an `EnsureStep` says.
#[verifier::ext_equal]
pub enum EnsureView {
    Decided(DecisionView),
    Observe(ObservationView),
    Wait,
}

impl View for EnsureStep {
    type V = EnsureView;

    open spec fn view(&self) -> EnsureView {
        match *self {
            EnsureStep::Decided(decision) => EnsureView::Decided(decision@),
            EnsureStep::Observe(observation) => EnsureView::Observe(observation@),
            EnsureStep::Wait => EnsureView::Wait,
        }
    }
}

/// What the bootstrap in the background does next.
#[derive(Debug, PartialEq, Eq)]
pub enum BootstrapAction {
    /// Sleep so many milliseconds; then `LifecycleManager::bootstrap_tick` again.
    Pause(u64),
    /// Carry out this observation; then `LifecycleManager::bootstrap_observed`.
    Observe(Observation),
    Stop,
}

/// What a `BootstrapAction` says.
#[verifier::ext_equal]
pub enum ActionView {
    Pause(u64),
    Observe(ObservationView),
    Stop,
}

impl View for BootstrapAction {
    type V = ActionView;

    open spec fn view(&self) -> ActionView {
        match *self {
            BootstrapAction::Pause(millis) => ActionView::Pause(millis),
            BootstrapAction::Observe(observation) => ActionView::Observe(observation@),
            BootstrapAction::Stop => ActionView::Stop,
        }
    }
}

/// What a waiting request does next.
#[derive(Debug, PartialEq, Eq)]
pub enum WaitStep {
    Decided(LifecycleDecision),
    /// Wait until a status is published or the time is spent; `stale` tells whether the status
    /// seen now is from before the bootstrap.
    Wait { stale: bool },
}

/// What a `WaitStep` says.
#[verifier::ext_equal]
pub enum WaitView {
    Decided(DecisionView),
    Wait { stale: bool },
}

impl View for WaitStep {
    type V = WaitView;

    open spec fn view(&self) -> WaitView {
        match *self {
            WaitStep::Decided(decision) => WaitView::Decided(decision@),
            WaitStep::Wait { stale } => WaitView::Wait { stale },
        }
    }
}

/// A request starts the bootstrap or joins the one that is running. The running one then serves
/// the more demanding of the two requests.
pub open spec fn joined(m: LifecycleView, request: LifecycleRequest) -> LifecycleView {
    if !m.active {
        LifecycleView { active: true, last_error: None, observe_request: request, ..m }
    } else if priority(request) > priority(m.observe_request) {
        LifecycleView { observe_request: request, ..m }
    } else {
        m
    }
}

/// The bootstrap ends with this status and error.
pub open spec fn finished(
    m: LifecycleView,
    status: BackendStatusView,
    error: Option<Seq<char>>,
) -> LifecycleView {
    LifecycleView { status, active: false, last_error: error, ..m }
}

/// What follows from a request for the backend.
pub open spec fn ensured(m: LifecycleView, request: LifecycleRequest) -> (
    LifecycleView,
    EnsureView,
) {
    if !m.active && usable(m.status) {
        (m, EnsureView::Decided(DecisionView::Ready(m.status)))
    } else if m.active {
        (joined(m, request), EnsureView::Wait)
    } else {
        (
            joined(m, request),
            EnsureView::Observe(
                ObservationView {
                    wake_request: Some(request),
                    observe_request: request,
                    status: m.status,
                    retry_after_secs: m.timing.retry_after_secs,
                },
            ),
        )
    }
}

/// An observation ends with a decision: the bootstrap is over unless the backend is still starting.
pub open spec fn concluded(m: LifecycleView, decision: DecisionView) -> LifecycleView {
    match decision {
        DecisionView::Ready(status) => finished(m, status, None),
        DecisionView::Failed { status, error } => finished(m, status, Some(error)),
        DecisionView::Warming { status, .. } => LifecycleView { status, ..m },
    }
}

/// The message of a bootstrap that ran out of time.
pub open spec fn deadline_message() -> Seq<char> {
    "backend did not become ready before the boot deadline"@
}

/// What the bootstrap in the background does, before and after its pause.
pub open spec fn ticked(m: LifecycleView, paused: bool, deadline_passed: bool) -> (
    LifecycleView,
    ActionView,
) {
    if deadline_passed {
        (finished(m, failing(m.status), Some(deadline_message())), ActionView::Stop)
    } else if !paused {
        (m, ActionView::Pause(m.timing.bootstrap_poll_interval_millis))
    } else {
        (
            m,
            ActionView::Observe(
                ObservationView {
                    wake_request: None,
                    observe_request: m.observe_request,
                    status: m.status,
                    retry_after_secs: m.timing.retry_after_secs,
                },
            ),
        )
    }
}

/// The seconds that a bootstrap has left: the boot deadline counts from the last wake request, or
/// from now where there was none.
pub open spec fn seconds_left(m: LifecycleView, now: Timestamp) -> u64 {
    let start: u64 = match m.status.last_wake_attempt_at {
        Some(at) => at.0,
        None => now.0,
    };
    let end: int = if start + m.timing.hard_boot_deadline_secs > u64::MAX {
        u64::MAX as int
    } else {
        start + m.timing.hard_boot_deadline_secs
    };
    if end > now.0 {
        (end - now.0) as u64
    } else {
        0
    }
}

/// Whether the published status is from before the running bootstrap.
pub open spec fn stale_status(m: LifecycleView) -> bool {
    m.active && !(m.status.lifecycle is Warming)
}

/// The answer to a request whose time is spent.
pub open spec fn wait_spent(m: LifecycleView, stale: bool) -> DecisionView {
    DecisionView::Warming {
        status: waiting_status(m.status, stale),
        retry_after_secs: m.timing.retry_after_secs,
    }
}

/// What a waiting request does.
pub open spec fn waited(m: LifecycleView, time_spent: bool) -> WaitView {
    let stale = stale_status(m);
    if !stale && usable(m.status) {
        WaitView::Decided(DecisionView::Ready(m.status))
    } else if !stale && m.status.lifecycle is Error {
        WaitView::Decided(
            DecisionView::Failed {
                status: m.status,
                error: match m.last_error {
                    Some(error) => error,
                    None => "backend reported error state"@,
                },
            },
        )
    } else if time_spent {
        WaitView::Decided(wait_spent(m, stale))
    } else {
        WaitView::Wait { stale }
    }
}

/// The backend has turned out to have no embeddings.
pub open spec fn without_embeddings(m: LifecycleView, reason: Seq<char>) -> LifecycleView {
    LifecycleView {
        status: BackendStatusView {
            embeddings: CapabilityState::Degraded,
            embeddings_reason: Some(reason),
            ..m.status
        },
        ..m
    }
}

/// The backend is taken to be starting.
pub open spec fn marked_warming(m: LifecycleView) -> LifecycleView {
    LifecycleView { status: starting(m.status), ..m }
}

/// The backend has turned out not to answer. It needs a fresh wake, unless a bootstrap is seeing to
/// it already.
pub open spec fn silent(m: LifecycleView) -> LifecycleView {
    if m.active {
        marked_warming(m)
    } else {
        LifecycleView {
            status: BackendStatusView {
                lifecycle: LifecycleState::Cold,
                tunnel: TunnelState::Down,
                ..m.status
            },
            ..m
        }
    }
}

impl LifecycleManager {
    /// A manager with the timing that the environment asks for.
    pub fn new(initial_status: BackendStatus, env: &TextTable) -> (r: LifecycleManager)
        ensures
            r@ == (LifecycleView {
                status: initial_status@,
                active: false,
                last_error: None,
                observe_request: LifecycleRequest::Chat,
                timing: timing_setting(env@),
            }),
    {
        LifecycleManager::new_with_timing(initial_status, LifecycleTiming::from_env(env))
    }

    pub fn new_with_timing(initial_status: BackendStatus, timing: LifecycleTiming) -> (r:
        LifecycleManager)
        ensures
            r@ == (LifecycleView {
                status: initial_status@,
                active: false,
                last_error: None,
                observe_request: LifecycleRequest::Chat,
                timing,
            }),
    {
        LifecycleManager { status: initial_status, bootstrap: BootstrapState::default(), timing }
    }

    fn observation(&self, wake_request: Option<LifecycleRequest>) -> (r: Observation)
        ensures
            r@ == (ObservationView {
                wake_request,
                observe_request: self@.observe_request,
                status: self@.status,
                retry_after_secs: self@.timing.retry_after_secs,
            }),
    {
        Observation {
            wake_request,
            observe_request: self.bootstrap.observe_request,
            status: self.status.clone(),
            retry_after_secs: self.timing.retry_after_secs,
        }
    }

    /// Starts the bootstrap, and tells so, or joins the one that is running.
    fn start_or_join_bootstrap(&mut self, request: LifecycleRequest) -> (r: bool)
        ensures
            r == !old(self)@.active,
            final(self)@ == joined(old(self)@, request),
    {
        let should_start = !self.bootstrap.active;
        if should_start {
            self.bootstrap.active = true;
            self.bootstrap.last_error = None;
            self.bootstrap.observe_request = request;
        } else if request_priority(request) > request_priority(self.bootstrap.observe_request) {
            self.bootstrap.observe_request = request;
        }
        should_start
    }

    fn finish_bootstrap(&mut self, status: BackendStatus, error: Option<LifecycleError>)
        ensures
            final(self)@ == finished(
                old(self)@,
                status@,
                match error {
                    Some(error) => Some(error@),
                    None => None,
                },
            ),
    {
        self.bootstrap.last_error = error;
        self.status = status;
        self.bootstrap.active = false;
    }

    /// A request for the backend.
    pub fn ensure_backend(&mut self, request: LifecycleRequest) -> (r: EnsureStep)
        ensures
            (final(self)@, r@) == ensured(old(self)@, request),
    {
        if !self.bootstrap.active && backend_is_ready(&self.status) {
            return EnsureStep::Decided(LifecycleDecision::Ready(self.status.clone()));
        }
        if self.start_or_join_bootstrap(request) {
            EnsureStep::Observe(self.observation(Some(request)))
        } else {
            EnsureStep::Wait
        }
    }

    /// Takes the decision of the observation that began the bootstrap. It is the answer to the
    /// request, unless the backend is still starting: then the bootstrap goes on in the background,
    /// and the request waits for it.
    pub fn first_observation(&mut self, decision: LifecycleDecision) -> (r: Option<
        LifecycleDecision,
    >)
        ensures
            final(self)@ == concluded(old(self)@, decision@),
            decision@ is Warming ==> r is None,
            !(decision@ is Warming) ==> r is Some && r->0@ == decision@,
    {
        match decision {
            LifecycleDecision::Ready(status) => {
                self.finish_bootstrap(status.clone(), None);
                Some(LifecycleDecision::Ready(status))
            },
            LifecycleDecision::Failed { status, error } => {
                self.finish_bootstrap(status.clone(), Some(error.clone()));
                Some(LifecycleDecision::Failed { status, error })
            },
            LifecycleDecision::Warming { status, .. } => {
                self.status = status;
                None
            },
        }
    }

    /// The seconds that the bootstrap has left at the time `now`.
    pub fn bootstrap_seconds_left(&self, now: Timestamp) -> (r: u64)
        ensures
            r == seconds_left(self@, now),
    {
        let now: u64 = now.unix_seconds();
        let start: u64 = match self.status.last_wake_attempt_at {
            Some(at) => at.unix_seconds(),
            None => now,
        };
        let end: u64 = start.saturating_add(self.timing.hard_boot_deadline_secs);
        end.saturating_sub(now)
    }

    /// What the bootstrap does: it pauses, and then looks at the backend again, each time unless
    /// its deadline has passed.
    pub fn bootstrap_tick(&mut self, paused: bool, deadline_passed: bool) -> (r: BootstrapAction)
        ensures
            (final(self)@, r@) == ticked(old(self)@, paused, deadline_passed),
    {
        if deadline_passed {
            let error = LifecycleError::new("backend did not become ready before the boot deadline");
            let mut status = self.status.clone();
            status.lifecycle = LifecycleState::Error;
            status.tunnel = TunnelState::Down;
            self.finish_bootstrap(status, Some(error));
            return BootstrapAction::Stop;
        }
        if !paused {
            return BootstrapAction::Pause(self.timing.bootstrap_poll_interval_millis);
        }
        BootstrapAction::Observe(self.observation(None))
    }

    /// Takes the decision of an observation of the bootstrap, and tells whether it goes on.
    pub fn bootstrap_observed(&mut self, decision: LifecycleDecision) -> (r: bool)
        ensures
            final(self)@ == concluded(old(self)@, decision@),
            r == (decision@ is Warming),
    {
        match decision {
            LifecycleDecision::Ready(status) => {
                self.finish_bootstrap(status, None);
                false
            },
            LifecycleDecision::Failed { status, error } => {
                self.finish_bootstrap(status, Some(error));
                false
            },
            LifecycleDecision::Warming { status, .. } => {
                self.status = status;
                true
            },
        }
    }

    /// How many seconds a request may wait for the backend to come up; then its time is spent.
    pub fn wait_budget_secs(&self) -> (r: u64)
        ensures
            r == self@.timing.cold_wait_budget_secs,
    {
        self.timing.cold_wait_budget_secs
    }

    /// What a request does that waits for the bootstrap.
    pub fn wait_step(&self, time_spent: bool) -> (r: WaitStep)
        ensures
            r@ == waited(self@, time_spent),
    {
        let stale = self.bootstrap.active && !matches!(self.status.lifecycle, LifecycleState::Warming);
        if !stale && backend_is_ready(&self.status) {
            return WaitStep::Decided(LifecycleDecision::Ready(self.status.clone()));
        }
        if !stale && matches!(self.status.lifecycle, LifecycleState::Error) {
            let error = match &self.bootstrap.last_error {
                Some(error) => error.clone(),
                None => LifecycleError::new("backend reported error state"),
            };
            return WaitStep::Decided(
                LifecycleDecision::Failed { status: self.status.clone(), error },
            );
        }
        if time_spent {
            WaitStep::Decided(self.wait_over(stale))
        } else {
            WaitStep::Wait { stale }
        }
    }

    /// The answer to a request whose time was spent while it waited.
    pub fn wait_over(&self, stale: bool) -> (r: LifecycleDecision)
        ensures
            r@ == wait_spent(self@, stale),
    {
        LifecycleDecision::Warming {
            status: bootstrap_wait_status(self.status.clone(), stale),
            retry_after_secs: self.timing.retry_after_secs,
        }
    }

    /// The published status.
    pub fn status(&self) -> (r: BackendStatus)
        ensures
            r@ == self@.status,
    {
        self.status.clone()
    }

    /// Records that the backend has no embeddings.
    pub fn degrade_embeddings(&mut self, reason: String)
        ensures
            final(self)@ == without_embeddings(old(self)@, reason@),
    {
        self.status.embeddings = CapabilityState::Degraded;
        self.status.embeddings_reason = Some(reason);
    }

    /// Records that the backend is starting.
    pub fn mark_warming(&mut self)
        ensures
            final(self)@ == marked_warming(old(self)@),
    {
        self.status.lifecycle = LifecycleState::Warming;
        self.status.tunnel = TunnelState::Down;
    }

    /// Records that the backend does not answer.
    pub fn mark_unreachable(&mut self)
        ensures
            final(self)@ == silent(old(self)@),
    {
        self.mark_warming();
        if !self.bootstrap.active {
            self.status.lifecycle = LifecycleState::Cold;
        }
    }
}

/// What can happen to a `LifecycleManager`.
pub enum LifecycleEvent {
    Requested(LifecycleRequest),
    Observed(DecisionView),
    Ticked { paused: bool, deadline_passed: bool },
    EmbeddingsMissing(Seq<char>),
    MarkedWarming,
    Unreachable,
}

/// The state after an event.
pub open spec fn after_event(m: LifecycleView, event: LifecycleEvent) -> LifecycleView {
    match event {
        LifecycleEvent::Requested(request) => ensured(m, request).0,
        LifecycleEvent::Observed(decision) => concluded(m, decision),
        LifecycleEvent::Ticked { paused, deadline_passed } => ticked(m, paused, deadline_passed).0,
        LifecycleEvent::EmbeddingsMissing(reason) => without_embeddings(m, reason),
        LifecycleEvent::MarkedWarming => marked_warming(m),
        LifecycleEvent::Unreachable => silent(m),
    }
}

/// The state after a history of events.
pub open spec fn after_events(m: LifecycleView, events: Seq<LifecycleEvent>) -> LifecycleView
    decreases events.len(),
{
    if events.len() == 0 {
        m
    } else {
        after_event(after_events(m, events.drop_last()), events.last())
    }
}

/// Whatever happens, a running bootstrap carries no error of an earlier one, and the timing stays
/// as it was set.
pub proof fn running_bootstrap_has_no_error(m: LifecycleView, events: Seq<LifecycleEvent>)
    requires
        m.active ==> m.last_error is None,
    ensures
        after_events(m, events).active ==> after_events(m, events).last_error is None,
        after_events(m, events).timing == m.timing,
    decreases events.len(),
{
    if events.len() > 0 {
        running_bootstrap_has_no_error(m, events.drop_last());
    }
}

/// Whether an event ends the bootstrap: an observation that found the backend ready or failed, or
/// the deadline.
pub open spec fn ends_bootstrap(event: LifecycleEvent) -> bool {
    match event {
        LifecycleEvent::Observed(decision) => !(decision is Warming),
        LifecycleEvent::Ticked { deadline_passed, .. } => deadline_passed,
        _ => false,
    }
}

/// Whether an event is a request for embeddings.
pub open spec fn asks_for_embeddings(event: LifecycleEvent) -> bool {
    event == LifecycleEvent::Requested(LifecycleRequest::Embeddings)
}

/// Once a bootstrap has begun there is no second one until it has ended: whatever happens in
/// between, every further request waits for it.
pub proof fn one_bootstrap_at_a_time(
    m: LifecycleView,
    first: LifecycleRequest,
    events: Seq<LifecycleEvent>,
    last: LifecycleRequest,
)
    requires
        m.active || !usable(m.status),
        forall|i: int| 0 <= i < events.len() ==> !ends_bootstrap(#[trigger] events[i]),
    ensures
        after_events(ensured(m, first).0, events).active,
        ensured(after_events(ensured(m, first).0, events), last).1 == EnsureView::Wait,
    decreases events.len(),
{
    if events.len() > 0 {
        assert forall|i: int| 0 <= i < events.drop_last().len() implies !ends_bootstrap(
            #[trigger] events.drop_last()[i],
        ) by {
            assert(events.drop_last()[i] == events[i]);
        }
        one_bootstrap_at_a_time(m, first, events.drop_last(), last);
        assert(!ends_bootstrap(events[events.len() - 1]));
    }
}

/// A bootstrap ends with the event that ends it, and the next request for a backend that is not
/// ready then begins a new one.
pub proof fn bootstrap_ends(m: LifecycleView, event: LifecycleEvent, request: LifecycleRequest)
    requires
        ends_bootstrap(event),
    ensures
        !after_event(m, event).active,
        !usable(after_event(m, event).status) ==> ensured(after_event(m, event), request).1
            is Observe,
{
}

/// A running bootstrap serves embeddings as soon as one of the requests that it serves asks for
/// them, in whatever order they come, and only then.
pub proof fn embeddings_request_prevails(
    m: LifecycleView,
    first: LifecycleRequest,
    events: Seq<LifecycleEvent>,
)
    requires
        !m.active,
        !usable(m.status),
        forall|i: int| 0 <= i < events.len() ==> !ends_bootstrap(#[trigger] events[i]),
    ensures
        after_events(ensured(m, first).0, events).observe_request is Embeddings <==> {
            first is Embeddings || exists|i: int|
                0 <= i < events.len() && asks_for_embeddings(#[trigger] events[i])
        },
    decreases events.len(),
{
    if events.len() > 0 {
        let fewer = events.drop_last();
        assert forall|i: int| 0 <= i < fewer.len() implies !ends_bootstrap(#[trigger] fewer[i]) by {
            assert(fewer[i] == events[i]);
        }
        one_bootstrap_at_a_time(m, first, fewer, first);
        embeddings_request_prevails(m, first, fewer);
        assert(!ends_bootstrap(events[events.len() - 1]));
        assert((exists|i: int| 0 <= i < events.len() && asks_for_embeddings(#[trigger] events[i]))
            <==> (exists|i: int| 0 <= i < fewer.len() && asks_for_embeddings(#[trigger] fewer[i]))
            || asks_for_embeddings(events.last())) by {
            if exists|i: int| 0 <= i < fewer.len() && asks_for_embeddings(#[trigger] fewer[i]) {
                let i = choose|i: int|
                    0 <= i < fewer.len() && asks_for_embeddings(#[trigger] fewer[i]);
                assert(asks_for_embeddings(events[i]));
            }
            if asks_for_embeddings(events.last()) {
                assert(asks_for_embeddings(events[events.len() - 1]));
            }
            if exists|i: int| 0 <= i < events.len() && asks_for_embeddings(#[trigger] events[i]) {
                let i = choose|i: int|
                    0 <= i < events.len() && asks_for_embeddings(#[trigger] events[i]);
                if i < fewer.len() {
                    assert(asks_for_embeddings(fewer[i]));
                }
            }
        }
    }
}

/// A ready backend is used as it is: nothing is woken, asked or opened, and nothing changes.
pub proof fn ready_backend_is_reused(m: LifecycleView, request: LifecycleRequest)
    requires
        !m.active,
        usable(m.status),
    ensures
        ensured(m, request) == (m, EnsureView::Decided(DecisionView::Ready(m.status))),
{
}

/// A request for a backend that is not ready is never answered at once: it starts a bootstrap, in
/// its own name, or waits for the one that is running.
pub proof fn unready_backend_is_bootstrapped(m: LifecycleView, request: LifecycleRequest)
    requires
        m.active || !usable(m.status),
    ensures
        ensured(m, request).1 is Wait <==> m.active,
        ensured(m, request).1 is Observe <==> !m.active,
        ensured(m, request).0.active,
        !m.active ==> ensured(m, request).1->Observe_0.wake_request == Some(request),
{
}

/// What an observation decides goes with the status that it publishes: ready with a tunnel that is
/// ready, failed without a tunnel, or neither ready nor failed.
pub proof fn decision_matches_status(
    seen: ObservationView,
    probe: Result<bool, Seq<char>>,
    at: Timestamp,
    sent: Result<(), Seq<char>>,
    report: Result<ObservedView, Seq<char>>,
    tunnel: Result<TunnelState, Seq<char>>,
)
    ensures
        ({
            let decision = observed(seen, probe, at, sent, report, tunnel);
            let status = decided_status(decision);
            &&& decision is Ready <==> usable(status)
            &&& decision is Failed <==> status.lifecycle is Error
            &&& decision is Failed ==> status.tunnel is Down
            &&& decision matches DecisionView::Warming { retry_after_secs, .. }
                ==> retry_after_secs == seen.retry_after_secs
        }),
{
}

/// The time of the last wake request changes only where one is sent, and the end of the lease never.
pub proof fn wake_time_is_kept(
    seen: ObservationView,
    probe: Result<bool, Seq<char>>,
    at: Timestamp,
    sent: Result<(), Seq<char>>,
    report: Result<ObservedView, Seq<char>>,
    tunnel: Result<TunnelState, Seq<char>>,
)
    ensures
        ({
            let status = decided_status(observed(seen, probe, at, sent, report, tunnel));
            &&& status.last_wake_attempt_at == if after_ssh(seen, probe) is Wake {
                Some(at)
            } else {
                seen.status.last_wake_attempt_at
            }
            &&& status.lease_expires_at == seen.status.lease_expires_at
        }),
{
}

/// A backend is found ready only if SSH answers, the helper reports it ready and the tunnel is
/// open; and then it is.
pub proof fn ready_means_every_check_passed(
    seen: ObservationView,
    probe: Result<bool, Seq<char>>,
    at: Timestamp,
    sent: Result<(), Seq<char>>,
    report: Result<ObservedView, Seq<char>>,
    tunnel: Result<TunnelState, Seq<char>>,
)
    ensures
        observed(seen, probe, at, sent, report, tunnel) is Ready <==> {
            &&& probe == Ok::<bool, Seq<char>>(true)
            &&& report is Ok
            &&& report->Ok_0.lifecycle is Ready
            &&& tunnel == Ok::<TunnelState, Seq<char>>(TunnelState::Ready)
        },
{
}

/// The host is woken only where SSH does not answer, in the name of a request, and not again while
/// the backend is starting.
pub proof fn wake_only_when_asleep(seen: ObservationView, probe: Result<bool, Seq<char>>)
    ensures
        after_ssh(seen, probe) is Wake <==> {
            &&& probe == Ok::<bool, Seq<char>>(false)
            &&& seen.wake_request is Some
            &&& !(seen.status.lifecycle is Warming)
        },
        after_ssh(seen, probe) is Wake ==> after_ssh(seen, probe)->request
            == seen.wake_request->0,
{
}

/// The bootstrap in the background never wakes the host again.
pub proof fn background_never_wakes(
    m: LifecycleView,
    paused: bool,
    deadline_passed: bool,
    probe: Result<bool, Seq<char>>,
)
    requires
        ticked(m, paused, deadline_passed).1 is Observe,
    ensures
        !(after_ssh(ticked(m, paused, deadline_passed).1->Observe_0, probe) is Wake),
{
}

/// A status from before a running bootstrap is never passed on as the answer: a request that sees
/// one waits, or is told that the backend is starting.
pub proof fn stale_status_is_not_an_answer(m: LifecycleView, time_spent: bool)
    requires
        m.active,
        m.status.lifecycle is Ready || m.status.lifecycle is Error || m.status.lifecycle is Cold,
    ensures
        !time_spent ==> waited(m, time_spent) is Wait,
        time_spent ==> waited(m, time_spent) == WaitView::Decided(
            DecisionView::Warming {
                status: starting(m.status),
                retry_after_secs: m.timing.retry_after_secs,
            },
        ),
{
}

/// Whoever waits for a bootstrap is told what it came to: the same status, and the same error where
/// it failed.
pub proof fn waiters_learn_the_outcome(
    m: LifecycleView,
    seen: ObservationView,
    probe: Result<bool, Seq<char>>,
    at: Timestamp,
    sent: Result<(), Seq<char>>,
    report: Result<ObservedView, Seq<char>>,
    tunnel: Result<TunnelState, Seq<char>>,
    time_spent: bool,
)
    ensures
        ({
            let decision = observed(seen, probe, at, sent, report, tunnel);
            !(decision is Warming) ==> waited(concluded(m, decision), time_spent)
                == WaitView::Decided(decision)
        }),
{
}

/// Whoever waits for a bootstrap that runs out of time is told that it did.
pub proof fn waiters_learn_of_the_deadline(m: LifecycleView, paused: bool, time_spent: bool)
    ensures
        ({
            let (late, action) = ticked(m, paused, true);
            &&& action is Stop
            &&& !late.active
            &&& waited(late, time_spent) == WaitView::Decided(
                DecisionView::Failed { status: failing(m.status), error: deadline_message() },
            )
        }),
{
}

/// Whoever is told that the backend is starting is told to come back after the configured time.
pub proof fn retry_after_is_as_configured(
    m: LifecycleView,
    request: LifecycleRequest,
    paused: bool,
    deadline_passed: bool,
    time_spent: bool,
)
    ensures
        ensured(m, request).1 matches EnsureView::Observe(seen) ==> seen.retry_after_secs
            == m.timing.retry_after_secs,
        ticked(m, paused, deadline_passed).1 matches ActionView::Observe(seen)
            ==> seen.retry_after_secs == m.timing.retry_after_secs,
        waited(m, time_spent) matches WaitView::Decided(
            DecisionView::Warming { retry_after_secs, .. },
        ) ==> retry_after_secs == m.timing.retry_after_secs,
{
}

/// After a bootstrap has failed, the next request starts a new one, and may wake the host again.
pub proof fn failed_bootstrap_is_retried(
    m: LifecycleView,
    status: BackendStatusView,
    error: Seq<char>,
    request: LifecycleRequest,
)
    ensures
        ({
            let failed = concluded(m, failure(status, error));
            let (next, step) = ensured(failed, request);
            &&& next.active
            &&& next.last_error is None
            &&& step is Observe
            &&& after_ssh(step->Observe_0, Ok(false)) is Wake
        }),
{
}

/// A backend that has turned out not to answer is not taken for ready: the next request starts a
/// bootstrap or waits for one.
pub proof fn unreachable_backend_is_not_ready(m: LifecycleView, request: LifecycleRequest)
    ensures
        !usable(silent(m).status),
        !(ensured(silent(m), request).1 is Decided),
{
}

/// The first request after a backend has turned out not to answer starts the host afresh: where SSH
/// does not answer either, the host is woken.
pub proof fn unreachable_backend_is_woken(m: LifecycleView, request: LifecycleRequest)
    requires
        !m.active,
    ensures
        ensured(silent(m), request).1 is Observe,
        after_ssh(ensured(silent(m), request).1->Observe_0, Ok(false)) is Wake,
{
}

/// A backend that is taken to be starting is not taken for ready either, and is not woken again.
pub proof fn warming_backend_is_not_ready(m: LifecycleView, request: LifecycleRequest)
    ensures
        !(ensured(marked_warming(m), request).1 is Decided),
        ensured(marked_warming(m), request).1 matches EnsureView::Observe(seen) ==> !(after_ssh(
            seen,
            Ok(false),
        ) is Wake),
{
}

/// That the backend has no embeddings does not change whether it is ready.
pub proof fn missing_embeddings_leave_readiness(m: LifecycleView, reason: Seq<char>)
    ensures
        usable(without_embeddings(m, reason).status) == usable(m.status),
        without_embeddings(m, reason).status.embeddings is Degraded,
        without_embeddings(m, reason).status.embeddings_reason == Some(reason),
        without_embeddings(m, reason).active == m.active,
{
}

/// A bootstrap has the whole boot deadline where no wake request was sent, and less and less of it
/// as time goes by after one; none once it is over.
pub proof fn boot_deadline_counts_from_wake(m: LifecycleView, now: Timestamp, later: Timestamp)
    requires
        now.0 <= later.0,
        now.0 + m.timing.hard_boot_deadline_secs <= u64::MAX,
    ensures
        m.status.last_wake_attempt_at is None ==> seconds_left(m, now)
            == m.timing.hard_boot_deadline_secs,
        m.status.last_wake_attempt_at is Some ==> seconds_left(m, later) <= seconds_left(m, now),
        m.status.last_wake_attempt_at == Some(now) ==> seconds_left(m, later)
            == if later.0 - now.0 < m.timing.hard_boot_deadline_secs {
            m.timing.hard_boot_deadline_secs - (later.0 - now.0)
        } else {
            0
        },
{
}

/// Whether two optional texts are the same.
pub open spec fn same_text(a: Option<String>, b: Option<String>) -> bool {
    match (a, b) {
        (Some(a), Some(b)) => a@ == b@,
        (None, None) => true,
        _ => false,
    }
}

/// Whether two statuses say the same of what the backend can do and of its units.
pub open spec fn same_abilities(a: BackendStatus, b: BackendStatus) -> bool {
    &&& a.chat == b.chat
    &&& a.embeddings == b.embeddings
    &&& same_text(a.embeddings_reason, b.embeddings_reason)
    &&& a.llama_server_unit == b.llama_server_unit
    &&& a.inhibit_unit == b.inhibit_unit
}

/// Whether two statuses say the same, but for the state of the backend and of its tunnel.
pub open spec fn same_but_state(a: BackendStatus, b: BackendStatus) -> bool {
    &&& same_abilities(a, b)
    &&& a.last_wake_attempt_at == b.last_wake_attempt_at
    &&& a.lease_expires_at == b.lease_expires_at
}

/// Whether two statuses say the same.
pub open spec fn same_status(a: BackendStatus, b: BackendStatus) -> bool {
    &&& a.lifecycle == b.lifecycle
    &&& a.tunnel == b.tunnel
    &&& same_but_state(a, b)
}

/// Whether two observations are the same but for their status.
pub open spec fn same_purpose(a: Observation, b: Observation) -> bool {
    &&& a.wake_request == b.wake_request
    &&& a.observe_request == b.observe_request
    &&& a.retry_after_secs == b.retry_after_secs
}

/// Whether a status says of the abilities and the units of the backend what the helper reported.
pub open spec fn says_as_reported(status: BackendStatus, report: ObservedBackendState) -> bool {
    &&& status.chat == report.chat
    &&& status.embeddings == report.embeddings
    &&& same_text(status.embeddings_reason, report.embeddings_reason)
    &&& status.llama_server_unit == report.llama_server_unit
    &&& status.inhibit_unit == report.inhibit_unit
}

/// A probe of SSH that fails is a failure with its error. Where SSH answers, the observation goes on
/// as it is. Where it does not, the host is woken if the observation may do so and the backend is not
/// starting already; otherwise the backend is starting.
pub proof fn ssh_probe_decides(
    seen: Observation,
    probe: Result<bool, LifecycleError>,
    step: ObservationStep,
)
    requires
        call_ensures(Observation::ssh_probed, (seen, probe), step),
    ensures
        match (probe, step) {
            (Err(error), ObservationStep::Decided(LifecycleDecision::Failed { status, error: told })) => {
                &&& told.message@ == error.message@
                &&& status.lifecycle is Error
                &&& status.tunnel is Down
                &&& same_but_state(status, seen.status)
            },
            (Ok(true), ObservationStep::ObserveBackend(next)) => same_purpose(next, seen)
                && same_status(next.status, seen.status),
            (Ok(false), ObservationStep::Wake { request, observation }) => {
                &&& seen.wake_request == Some(request)
                &&& !(seen.status.lifecycle is Warming)
                &&& same_purpose(observation, seen)
                &&& same_status(observation.status, seen.status)
            },
            (Ok(false), ObservationStep::Decided(LifecycleDecision::Warming { status, retry_after_secs })) => {
                &&& seen.wake_request is None || seen.status.lifecycle is Warming
                &&& status.lifecycle is Warming
                &&& status.tunnel is Down
                &&& same_but_state(status, seen.status)
                &&& retry_after_secs == seen.retry_after_secs
            },
            _ => false,
        },
{
}

/// After a wake request the backend is starting, or has failed with the error of the request; the
/// time that was noted is kept, and what was known of the abilities of the backend stays.
pub proof fn wake_request_is_noted(
    seen: Observation,
    at: Timestamp,
    sent: Result<(), LifecycleError>,
    decision: LifecycleDecision,
)
    requires
        call_ensures(Observation::wake_sent, (seen, at, sent), decision),
    ensures
        match (sent, decision) {
            (Ok(_), LifecycleDecision::Warming { status, retry_after_secs }) => {
                &&& status.lifecycle is Warming
                &&& status.tunnel is Down
                &&& status.last_wake_attempt_at == Some(at)
                &&& status.lease_expires_at == seen.status.lease_expires_at
                &&& same_abilities(status, seen.status)
                &&& retry_after_secs == seen.retry_after_secs
            },
            (Err(error), LifecycleDecision::Failed { status, error: told }) => {
                &&& told.message@ == error.message@
                &&& status.lifecycle is Error
                &&& status.tunnel is Down
                &&& status.last_wake_attempt_at == Some(at)
                &&& status.lease_expires_at == seen.status.lease_expires_at
                &&& same_abilities(status, seen.status)
            },
            _ => false,
        },
{
}

/// Whatever the helper reports of the abilities and the units of the backend is what the status says
/// from then on, in every case. A backend that is reported ready gets its tunnel; one that is reported
/// failed has failed, for the reason that was reported; any other is starting.
pub proof fn report_is_passed_on(
    seen: Observation,
    report: ObservedBackendState,
    step: ObservationStep,
)
    requires
        call_ensures(Observation::backend_observed, (seen, Ok(report)), step),
    ensures
        match step {
            ObservationStep::EnsureTunnel(next) => {
                &&& report.lifecycle is Ready
                &&& next.status.lifecycle is Ready
                &&& next.status.tunnel == seen.status.tunnel
                &&& says_as_reported(next.status, report)
                &&& next.status.last_wake_attempt_at == seen.status.last_wake_attempt_at
                &&& next.status.lease_expires_at == seen.status.lease_expires_at
                &&& same_purpose(next, seen)
            },
            ObservationStep::Decided(LifecycleDecision::Failed { status, error }) => {
                &&& report.lifecycle is Error
                &&& status.lifecycle is Error
                &&& status.tunnel is Down
                &&& says_as_reported(status, report)
                &&& status.last_wake_attempt_at == seen.status.last_wake_attempt_at
                &&& status.lease_expires_at == seen.status.lease_expires_at
                &&& report.error matches Some(reason) ==> error.message@ == reason@
                &&& report.error is None ==> error.message@ == "backend reported error state"@
            },
            ObservationStep::Decided(LifecycleDecision::Warming { status, retry_after_secs }) => {
                &&& report.lifecycle is Warming || report.lifecycle is Cold
                &&& status.lifecycle == report.lifecycle
                &&& status.tunnel is Down
                &&& says_as_reported(status, report)
                &&& status.last_wake_attempt_at == seen.status.last_wake_attempt_at
                &&& status.lease_expires_at == seen.status.lease_expires_at
                &&& retry_after_secs == seen.retry_after_secs
            },
            _ => false,
        },
{
}

/// Where the helper could not be asked, the backend has failed for that reason, and what was known of
/// its abilities stays.
pub proof fn missing_report_is_a_failure(
    seen: Observation,
    error: LifecycleError,
    step: ObservationStep,
)
    requires
        call_ensures(Observation::backend_observed, (seen, Err(error)), step),
    ensures
        match step {
            ObservationStep::Decided(LifecycleDecision::Failed { status, error: told }) => {
                &&& told.message@ == error.message@
                &&& status.lifecycle is Error
                &&& status.tunnel is Down
                &&& same_but_state(status, seen.status)
            },
            _ => false,
        },
{
}

/// A backend that was reported ready is ready with its tunnel, is starting as long as the tunnel is
/// not, and has failed where the tunnel could not be opened, for that reason.
pub proof fn tunnel_completes_readiness(
    seen: Observation,
    tunnel: Result<TunnelState, LifecycleError>,
    decision: LifecycleDecision,
)
    requires
        seen.status.lifecycle is Ready,
        call_ensures(Observation::tunnel_ensured, (seen, tunnel), decision),
    ensures
        match (tunnel, decision) {
            (Ok(state), LifecycleDecision::Ready(status)) => {
                &&& state is Ready
                &&& status.lifecycle is Ready
                &&& status.tunnel is Ready
                &&& same_but_state(status, seen.status)
            },
            (Ok(state), LifecycleDecision::Warming { status, retry_after_secs }) => {
                &&& !(state is Ready)
                &&& status.lifecycle is Warming
                &&& status.tunnel == state
                &&& same_but_state(status, seen.status)
                &&& retry_after_secs == seen.retry_after_secs
            },
            (Err(error), LifecycleDecision::Failed { status, error: told }) => {
                &&& told.message@ == error.message@
                &&& status.lifecycle is Error
                &&& status.tunnel is Down
                &&& same_but_state(status, seen.status)
            },
            _ => false,
        },
{
}

/// Whatever an observation comes to after the helper has answered, the status that it publishes has
/// the abilities and the units of the report.
pub proof fn published_status_carries_the_report(
    seen: ObservationView,
    at: Timestamp,
    sent: Result<(), Seq<char>>,
    report: ObservedView,
    tunnel: Result<TunnelState, Seq<char>>,
)
    ensures
        ({
            let status = decided_status(observed(seen, Ok(true), at, sent, Ok(report), tunnel));
            &&& status.chat == report.chat
            &&& status.embeddings == report.embeddings
            &&& status.embeddings_reason == report.embeddings_reason
            &&& status.llama_server_unit == report.llama_server_unit
            &&& status.inhibit_unit == report.inhibit_unit
        }),
{
}

/// An observation that gets no report leaves what was known of the abilities and the units of the
/// backend as it was.
pub proof fn abilities_change_by_reports_only(
    seen: ObservationView,
    probe: Result<bool, Seq<char>>,
    at: Timestamp,
    sent: Result<(), Seq<char>>,
    report: Result<ObservedView, Seq<char>>,
    tunnel: Result<TunnelState, Seq<char>>,
)
    requires
        probe != Ok::<bool, Seq<char>>(true) || report is Err,
    ensures
        ({
            let status = decided_status(observed(seen, probe, at, sent, report, tunnel));
            &&& status.chat == seen.status.chat
            &&& status.embeddings == seen.status.embeddings
            &&& status.embeddings_reason == seen.status.embeddings_reason
            &&& status.llama_server_unit == seen.status.llama_server_unit
            &&& status.inhibit_unit == seen.status.inhibit_unit
        }),
{
}

/// A request for a ready backend is answered with the published status. Any other starts a bootstrap
/// from that status, in its own name and for what it asks, or waits for the running one, which then
/// serves embeddings if either asks for them. The published status and the timing stay as they are.
pub proof fn request_starts_from_the_published_status(
    m: &mut LifecycleManager,
    request: LifecycleRequest,
    step: EnsureStep,
)
    requires
        call_ensures(LifecycleManager::ensure_backend, (m, request), step),
    ensures
        same_status(final(m).status, old(m).status),
        final(m).timing == old(m).timing,
        match step {
            EnsureStep::Decided(LifecycleDecision::Ready(status)) => {
                &&& !old(m).bootstrap.active
                &&& old(m).status.lifecycle is Ready
                &&& old(m).status.tunnel is Ready
                &&& same_status(status, old(m).status)
                &&& !final(m).bootstrap.active
                &&& final(m).bootstrap.observe_request == old(m).bootstrap.observe_request
            },
            EnsureStep::Observe(seen) => {
                &&& !old(m).bootstrap.active
                &&& !(old(m).status.lifecycle is Ready && old(m).status.tunnel is Ready)
                &&& seen.wake_request == Some(request)
                &&& seen.observe_request == request
                &&& same_status(seen.status, old(m).status)
                &&& seen.retry_after_secs == old(m).timing.retry_after_secs
                &&& final(m).bootstrap.active
                &&& final(m).bootstrap.last_error is None
                &&& final(m).bootstrap.observe_request == request
            },
            EnsureStep::Wait => {
                &&& old(m).bootstrap.active
                &&& final(m).bootstrap.active
                &&& final(m).bootstrap.observe_request is Embeddings <==> request is Embeddings
                    || old(m).bootstrap.observe_request is Embeddings
            },
            _ => false,
        },
{
}

/// What an observation decides is published: its status, and its error where it failed. The bootstrap
/// ends with it unless the backend is starting, and the request that looked is told what was decided.
pub proof fn decision_is_published(
    m: &mut LifecycleManager,
    decision: LifecycleDecision,
    answer: Option<LifecycleDecision>,
)
    requires
        call_ensures(LifecycleManager::first_observation, (m, decision), answer),
    ensures
        final(m).timing == old(m).timing,
        final(m).bootstrap.observe_request == old(m).bootstrap.observe_request,
        match (decision, answer) {
            (LifecycleDecision::Ready(status), Some(LifecycleDecision::Ready(told))) => {
                &&& same_status(told, status)
                &&& same_status(final(m).status, status)
                &&& !final(m).bootstrap.active
                &&& final(m).bootstrap.last_error is None
            },
            (LifecycleDecision::Failed { status, error }, Some(LifecycleDecision::Failed { status: told, error: why })) => {
                &&& same_status(told, status)
                &&& why.message@ == error.message@
                &&& same_status(final(m).status, status)
                &&& !final(m).bootstrap.active
                &&& final(m).bootstrap.last_error matches Some(kept)
                &&& kept.message@ == error.message@
            },
            (LifecycleDecision::Warming { status, .. }, None) => {
                &&& same_status(final(m).status, status)
                &&& final(m).bootstrap.active == old(m).bootstrap.active
            },
            _ => false,
        },
{
}

/// The same holds of what the bootstrap in the background decides, which goes on exactly if the
/// backend is starting.
pub proof fn background_decision_is_published(
    m: &mut LifecycleManager,
    decision: LifecycleDecision,
    goes_on: bool,
)
    requires
        call_ensures(LifecycleManager::bootstrap_observed, (m, decision), goes_on),
    ensures
        final(m).timing == old(m).timing,
        final(m).bootstrap.observe_request == old(m).bootstrap.observe_request,
        goes_on <==> decision is Warming,
        match decision {
            LifecycleDecision::Ready(status) => {
                &&& same_status(final(m).status, status)
                &&& !final(m).bootstrap.active
                &&& final(m).bootstrap.last_error is None
            },
            LifecycleDecision::Failed { status, error } => {
                &&& same_status(final(m).status, status)
                &&& !final(m).bootstrap.active
                &&& final(m).bootstrap.last_error matches Some(kept)
                &&& kept.message@ == error.message@
            },
            LifecycleDecision::Warming { status, .. } => {
                &&& same_status(final(m).status, status)
                &&& final(m).bootstrap.active == old(m).bootstrap.active
            },
        },
{
}

/// The bootstrap in the background pauses for the configured time, then looks at the backend for what
/// is asked of it, without waking the host; and fails once its deadline has passed.
pub proof fn background_pauses_and_looks(
    m: &mut LifecycleManager,
    paused: bool,
    deadline_passed: bool,
    action: BootstrapAction,
)
    requires
        call_ensures(LifecycleManager::bootstrap_tick, (m, paused, deadline_passed), action),
    ensures
        final(m).timing == old(m).timing,
        match action {
            BootstrapAction::Stop => {
                &&& deadline_passed
                &&& final(m).status.lifecycle is Error
                &&& final(m).status.tunnel is Down
                &&& same_but_state(final(m).status, old(m).status)
                &&& !final(m).bootstrap.active
                &&& final(m).bootstrap.last_error matches Some(kept)
                &&& kept.message@ == "backend did not become ready before the boot deadline"@
            },
            BootstrapAction::Pause(millis) => {
                &&& !deadline_passed && !paused
                &&& millis == old(m).timing.bootstrap_poll_interval_millis
                &&& same_status(final(m).status, old(m).status)
                &&& final(m).bootstrap.active == old(m).bootstrap.active
                &&& final(m).bootstrap.observe_request == old(m).bootstrap.observe_request
            },
            BootstrapAction::Observe(seen) => {
                &&& !deadline_passed && paused
                &&& seen.wake_request is None
                &&& seen.observe_request == old(m).bootstrap.observe_request
                &&& same_status(seen.status, old(m).status)
                &&& seen.retry_after_secs == old(m).timing.retry_after_secs
                &&& same_status(final(m).status, old(m).status)
                &&& final(m).bootstrap.active == old(m).bootstrap.active
                &&& final(m).bootstrap.observe_request == old(m).bootstrap.observe_request
            },
        },
{
}

/// A request that waits is told that the backend is ready or has failed as soon as that is published
/// by the bootstrap that it waits for. When its time is spent it is told that the backend is starting.
pub proof fn waiting_ends_with_what_is_published(
    m: &LifecycleManager,
    time_spent: bool,
    step: WaitStep,
)
    requires
        call_ensures(LifecycleManager::wait_step, (m, time_spent), step),
    ensures
        ({
            let old_news = m.bootstrap.active && !(m.status.lifecycle is Warming);
            let ready = m.status.lifecycle is Ready && m.status.tunnel is Ready;
            let failed = m.status.lifecycle is Error;
            match step {
                WaitStep::Decided(LifecycleDecision::Ready(status)) => {
                    &&& !old_news && ready
                    &&& same_status(status, m.status)
                },
                WaitStep::Decided(LifecycleDecision::Failed { status, error }) => {
                    &&& !old_news && failed
                    &&& same_status(status, m.status)
                    &&& m.bootstrap.last_error matches Some(kept) ==> error.message@ == kept.message@
                    &&& m.bootstrap.last_error is None ==> error.message@
                        == "backend reported error state"@
                },
                WaitStep::Decided(LifecycleDecision::Warming { status, retry_after_secs }) => {
                    &&& time_spent && (old_news || (!ready && !failed))
                    &&& same_but_state(status, m.status)
                    &&& retry_after_secs == m.timing.retry_after_secs
                    &&& old_news ==> status.lifecycle is Warming && status.tunnel is Down
                    &&& !old_news ==> same_status(status, m.status)
                },
                WaitStep::Wait { stale } => {
                    &&& !time_spent && (old_news || (!ready && !failed))
                    &&& stale == old_news
                },
            }
        }),
{
}

/// A request whose time was spent is told that the backend is starting: the published status, but not
/// that of before the bootstrap, and when to come back.
pub proof fn spent_wait_is_answered(m: &LifecycleManager, stale: bool, decision: LifecycleDecision)
    requires
        call_ensures(LifecycleManager::wait_over, (m, stale), decision),
    ensures
        match decision {
            LifecycleDecision::Warming { status, retry_after_secs } => {
                &&& same_but_state(status, m.status)
                &&& stale ==> status.lifecycle is Warming && status.tunnel is Down
                &&& !stale ==> same_status(status, m.status)
                &&& retry_after_secs == m.timing.retry_after_secs
            },
            _ => false,
        },
{
}

/// What is recorded of the backend between observations changes that and nothing else: that it has no
/// embeddings, and why; that it is starting; that it does not answer.
pub proof fn records_change_nothing_else(
    degraded: &mut LifecycleManager,
    reason: String,
    warming: &mut LifecycleManager,
    unanswering: &mut LifecycleManager,
)
    requires
        call_ensures(LifecycleManager::degrade_embeddings, (degraded, reason), ()),
        call_ensures(LifecycleManager::mark_warming, (warming,), ()),
        call_ensures(LifecycleManager::mark_unreachable, (unanswering,), ()),
    ensures
        ({
            let before = old(degraded).status;
            let after = final(degraded).status;
            &&& after.embeddings is Degraded
            &&& after.embeddings_reason matches Some(why)
            &&& why@ == reason@
            &&& after.lifecycle == before.lifecycle
            &&& after.tunnel == before.tunnel
            &&& after.chat == before.chat
            &&& after.last_wake_attempt_at == before.last_wake_attempt_at
            &&& after.lease_expires_at == before.lease_expires_at
            &&& after.llama_server_unit == before.llama_server_unit
            &&& after.inhibit_unit == before.inhibit_unit
            &&& final(degraded).bootstrap.active == old(degraded).bootstrap.active
            &&& final(degraded).timing == old(degraded).timing
        }),
        final(warming).status.lifecycle is Warming,
        final(warming).status.tunnel is Down,
        same_but_state(final(warming).status, old(warming).status),
        final(warming).bootstrap.active == old(warming).bootstrap.active,
        final(warming).timing == old(warming).timing,
        final(unanswering).status.lifecycle is Warming <==> old(unanswering).bootstrap.active,
        final(unanswering).status.lifecycle is Cold <==> !old(unanswering).bootstrap.active,
        final(unanswering).status.tunnel is Down,
        same_but_state(final(unanswering).status, old(unanswering).status),
        final(unanswering).bootstrap.active == old(unanswering).bootstrap.active,
        final(unanswering).timing == old(unanswering).timing,
{
}

/// A new manager knows the status that it is given and nothing else, and takes its timing from the
/// environment; a backend of which nothing is known is asleep, and expected to have both abilities.
pub proof fn new_manager_knows_its_status(
    status: BackendStatus,
    env: &TextTable,
    timing: LifecycleTiming,
    m: LifecycleManager,
    timed: LifecycleManager,
    published: BackendStatus,
    budget: u64,
)
    requires
        call_ensures(LifecycleManager::new, (status, env), m),
        call_ensures(LifecycleManager::new_with_timing, (status, timing), timed),
        call_ensures(LifecycleManager::status, (&m,), published),
        call_ensures(LifecycleManager::wait_budget_secs, (&timed,), budget),
    ensures
        same_status(m.status, status),
        !m.bootstrap.active,
        m.bootstrap.last_error is None,
        m.timing == timing_setting(env@),
        same_status(timed.status, status),
        !timed.bootstrap.active,
        timed.bootstrap.last_error is None,
        timed.timing == timing,
        same_status(published, status),
        budget == timing.cold_wait_budget_secs,
        unknown_backend().lifecycle is Cold,
        unknown_backend().tunnel is Down,
        unknown_backend().chat is Ready,
        unknown_backend().embeddings is Ready,
        unknown_backend().embeddings_reason is None,
        unknown_backend().last_wake_attempt_at is None,
        unknown_backend().lease_expires_at is None,
        unknown_backend().llama_server_unit is Unknown,
        unknown_backend().inhibit_unit is Unknown,
{
}

/// What a variable of the environment says about a number: the number in it, or the default where it
/// is missing, is no number or is too large.
pub open spec fn says_number(
    env: Map<Seq<char>, Seq<char>>,
    name: Seq<char>,
    default: nat,
    value: nat,
) -> bool {
    &&& forall|n: nat|
        env.contains_key(name) && #[trigger] number(env[name], 10, u64::MAX as nat) == Some(n)
            ==> value == n
    &&& !(env.contains_key(name) && number(env[name], 10, u64::MAX as nat) is Some) ==> value
        == default
}

/// Every part of the timing comes from its own variable.
pub proof fn timing_comes_from_its_variables(env: &TextTable, r: LifecycleTiming)
    requires
        call_ensures(LifecycleTiming::from_env, (env,), r),
    ensures
        says_number(env@, "COLD_WAIT_BUDGET_SECS"@, 90, r.cold_wait_budget_secs as nat),
        says_number(env@, "HARD_BOOT_DEADLINE_SECS"@, 300, r.hard_boot_deadline_secs as nat),
        says_number(env@, "BOOTSTRAP_POLL_INTERVAL_MS"@, 1_000, r.bootstrap_poll_interval_millis as nat),
        says_number(env@, "RETRY_AFTER_SECS"@, 10, r.retry_after_secs as nat),
{
}

/// A bootstrap has until the boot deadline after the last wake request, whatever the clock says now,
/// or the whole of it where there was none.
pub proof fn boot_deadline_is_absolute(m: &LifecycleManager, now: Timestamp, left: u64)
    requires
        call_ensures(LifecycleManager::bootstrap_seconds_left, (m, now), left),
    ensures
        ({
            let start: int = match m.status.last_wake_attempt_at {
                Some(at) => at.0 as int,
                None => now.0 as int,
            };
            let end: int = start + m.timing.hard_boot_deadline_secs;
            &&& now.0 <= end <= u64::MAX ==> now.0 + left == end
            &&& end < now.0 ==> left == 0
            &&& end > u64::MAX ==> now.0 + left == u64::MAX
        }),
{
}

/// Requests can be sent to a backend exactly if it and its tunnel are ready.
pub proof fn ready_with_a_tunnel_only(status: &BackendStatus, ready: bool)
    requires
        call_ensures(backend_is_ready, (status,), ready),
    ensures
        ready <==> status.lifecycle is Ready && status.tunnel is Ready,
{
}

} // verus!
