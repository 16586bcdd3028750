//! A request from its arrival to its answer.
//!
//! The backend is made ready, the request is forwarded, and what comes of that is turned into an
//! answer. A backend that turns out not to answer is made ready once more.

use tokio::sync::OwnedSemaphorePermit;
use vstd::prelude::*;

use crate::config::AppConfig;
use crate::forward::{forward_error_reply, ForwardConfig, ForwardError, ForwardErrorView};
use crate::helper::EnsureStartedView;
use crate::host::start_report;
use crate::http_error::{final_error, openai_error, ErrorReply, ErrorReplyView};
use crate::lifecycle::{
    after_ssh, ensured, observed, report_is_passed_on, silent, tunnel_completes_readiness,
    without_embeddings, BackendStatus, BackendStatusView, CapabilityState, DecisionView, EnsureStep,
    LifecycleDecision, LifecycleError, LifecycleManager, LifecycleRequest, Observation,
    ObservationStep, ObservationView, ObservedBackendState, Timestamp, TunnelState,
};
use crate::metrics::{counted, one_more, Metrics};
use crate::numeral::{decimal, decimal_text};
use crate::scheduler::{
    answered, ask_for_slot, refusal_message, taken_from, SlotOffer, WarmExecutionError,
};
use crate::state::{
    alias_of, lifecycle_of, tunnel_port_of, tunnel_seen, tunnel_was_ready, with_lifecycle_of,
    AppState, AppStateView,
};

verus! {

/// Where a request is forwarded to, and the name that its model has for the client.
#[derive(Debug)]
pub struct ForwardPlan {
    pub config: ForwardConfig,
    pub path: String,
    pub model_alias: String,
}

/// What a `ForwardPlan` says.
#[verifier::ext_equal]
pub struct PlanView {
    pub port: u16,
    pub path: Seq<char>,
    pub model_alias: Seq<char>,
}

impl View for ForwardPlan {
    type V = PlanView;

    open spec fn view(&self) -> PlanView {
        PlanView {
            port: self.config.port,
            path: self.path@,
            model_alias: self.model_alias@,
        }
    }
}

/// What a request needs next.
#[derive(Debug)]
pub enum FlowStep {
    /// Answer with this error.
    Reply(ErrorReply),
    /// Forward the request when the scheduler lets it run; then `Orchestrator::forward_finished`.
    Forward(ForwardPlan),
    /// Answer with what the backend answered.
    Relay,
    /// Make the backend ready once more; then `Orchestrator::retry_decided`.
    EnsureAgain,
    /// Forward the request at once; then `retry_finished`.
    ForwardDirectly(ForwardPlan),
}

/// What a `FlowStep` says.
#[verifier::ext_equal]
pub enum FlowView {
    Reply(ErrorReplyView),
    Forward(PlanView),
    Relay,
    EnsureAgain,
    ForwardDirectly(PlanView),
}

impl View for FlowStep {
    type V = FlowView;

    open spec fn view(&self) -> FlowView {
        match *self {
            FlowStep::Reply(reply) => FlowView::Reply(reply@),
            FlowStep::Forward(plan) => FlowView::Forward(plan@),
            FlowStep::Relay => FlowView::Relay,
            FlowStep::EnsureAgain => FlowView::EnsureAgain,
            FlowStep::ForwardDirectly(plan) => FlowView::ForwardDirectly(plan@),
        }
    }
}

/// What came of forwarding a request.
#[derive(Debug)]
pub enum ForwardOutcome {
    Answered,
    Failed(ForwardError),
    NotRun(WarmExecutionError),
}

/// What a `ForwardOutcome` says.
#[verifier::ext_equal]
pub enum OutcomeView {
    Answered,
    Failed(ForwardErrorView),
    NotRun(WarmExecutionError),
}

impl View for ForwardOutcome {
    type V = OutcomeView;

    open spec fn view(&self) -> OutcomeView {
        match *self {
            ForwardOutcome::Answered => OutcomeView::Answered,
            ForwardOutcome::Failed(error) => OutcomeView::Failed(error@),
            ForwardOutcome::NotRun(error) => OutcomeView::NotRun(error),
        }
    }
}

/// What is done about a backend that was ready but does not answer.
#[derive(Clone, Copy, Debug, PartialEq, Eq, Structural)]
pub enum UnreachablePolicy {
    /// The client is told so.
    Report,
    /// The backend is made ready once more.
    Rewake,
}

/// The path at the backend for a kind of request.
pub open spec fn path_of(kind: LifecycleRequest) -> Seq<char> {
    match kind {
        LifecycleRequest::Chat => "/v1/chat/completions"@,
        LifecycleRequest::Embeddings => "/v1/embeddings"@,
    }
}

/// The answer to a request that comes while the backend is starting.
pub open spec fn warming_reply(message: Seq<char>, retry_after: Seq<char>) -> ErrorReplyView {
    ErrorReplyView {
        status: 503,
        code: "warming_up"@,
        message,
        retry_after: Some(retry_after),
    }
}

/// The answer to a request for which there is no room while the backend is asleep.
pub open spec fn cold_queue_reply() -> ErrorReplyView {
    warming_reply("cold-start queue is full, retry later"@, "10"@)
}

/// The answer to a request for which the backend is not ready yet.
pub open spec fn starting_reply(retry_after_secs: u64) -> ErrorReplyView {
    warming_reply("backend is still starting"@, decimal(retry_after_secs as nat))
}

/// The answer to a request for which the backend could not be made ready.
pub open spec fn failed_reply(error: Seq<char>) -> ErrorReplyView {
    final_error(503, "backend_error"@, error)
}

/// The answer to a request that was not run.
pub open spec fn overloaded_reply(error: WarmExecutionError) -> ErrorReplyView {
    final_error(429, "overloaded"@, refusal_message(error))
}

/// The answer to a request for embeddings that the backend does not have.
pub open spec fn unsupported_reply(message: Seq<char>) -> ErrorReplyView {
    final_error(400, "unsupported_embeddings"@, message)
}

/// Where a kind of request is forwarded to.
pub open spec fn plan_for(state: AppStateView, kind: LifecycleRequest) -> PlanView {
    PlanView {
        port: tunnel_port_of(state.config, kind),
        path: path_of(kind),
        model_alias: alias_of(state.config, kind),
    }
}

/// What follows from a backend that is ready.
pub open spec fn ready_handled(
    state: AppStateView,
    kind: LifecycleRequest,
    status: BackendStatusView,
) -> (AppStateView, FlowView) {
    let seen = tunnel_seen(state, kind, status.tunnel);
    let noted = if tunnel_was_ready(state, kind) && !(status.tunnel is Ready) {
        AppStateView {
            metrics: Metrics {
                tunnel_drops: counted(state.metrics.tunnel_drops),
                ..state.metrics
            },
            ..seen
        }
    } else {
        seen
    };
    if kind is Embeddings && status.embeddings is Degraded {
        (
            noted,
            FlowView::Reply(
                unsupported_reply(
                    match status.embeddings_reason {
                        Some(reason) => reason,
                        None => "embeddings are degraded"@,
                    },
                ),
            ),
        )
    } else {
        (noted, FlowView::Forward(plan_for(state, kind)))
    }
}

/// The counters after a cold start.
pub open spec fn cold_start_counted(metrics: Metrics) -> Metrics {
    Metrics {
        cold_starts: counted(metrics.cold_starts),
        wake_attempts: counted(metrics.wake_attempts),
        ..metrics
    }
}

/// What follows from the decision about the backend.
pub open spec fn decision_handled(
    state: AppStateView,
    kind: LifecycleRequest,
    decision: DecisionView,
) -> (AppStateView, FlowView) {
    match decision {
        DecisionView::Ready(status) => ready_handled(state, kind, status),
        DecisionView::Warming { retry_after_secs, .. } => (
            AppStateView { metrics: cold_start_counted(state.metrics), ..state },
            FlowView::Reply(starting_reply(retry_after_secs)),
        ),
        DecisionView::Failed { error, .. } => (
            AppStateView {
                metrics: Metrics {
                    wake_failures: counted(state.metrics.wake_failures),
                    ..state.metrics
                },
                ..state
            },
            FlowView::Reply(failed_reply(error)),
        ),
    }
}

/// Why a backend without the embeddings endpoint is without embeddings.
pub open spec fn missing_endpoint() -> Seq<char> {
    "upstream returned 404"@
}

/// What follows from what came of forwarding a request.
pub open spec fn forward_handled(
    state: AppStateView,
    kind: LifecycleRequest,
    outcome: OutcomeView,
    policy: UnreachablePolicy,
) -> (AppStateView, FlowView) {
    let m = state.metrics;
    match outcome {
        OutcomeView::Answered => (
            AppStateView {
                metrics: Metrics { warm_requests: counted(m.warm_requests), ..m },
                ..state
            },
            FlowView::Relay,
        ),
        OutcomeView::NotRun(WarmExecutionError::QueueFull) => (
            AppStateView {
                metrics: Metrics { queue_full_rejections: counted(m.queue_full_rejections), ..m },
                ..state
            },
            FlowView::Reply(overloaded_reply(WarmExecutionError::QueueFull)),
        ),
        OutcomeView::NotRun(WarmExecutionError::QueueTimeout) => (
            AppStateView {
                metrics: Metrics { queue_timeouts: counted(m.queue_timeouts), ..m },
                ..state
            },
            FlowView::Reply(overloaded_reply(WarmExecutionError::QueueTimeout)),
        ),
        OutcomeView::Failed(error) => if error is EmbeddingsUnsupported {
            let degraded = without_embeddings(
                lifecycle_of(state, LifecycleRequest::Embeddings),
                missing_endpoint(),
            );
            (
                AppStateView {
                    metrics: Metrics { embeddings_degraded: counted(m.embeddings_degraded), ..m },
                    ..with_lifecycle_of(state, LifecycleRequest::Embeddings, degraded)
                },
                FlowView::Reply(
                    unsupported_reply(
                        "upstream backend does not support embeddings: "@ + missing_endpoint(),
                    ),
                ),
            )
        } else if error is UpstreamUnreachable && policy is Rewake {
            (
                AppStateView {
                    metrics: cold_start_counted(m),
                    ..with_lifecycle_of(state, kind, silent(lifecycle_of(state, kind)))
                },
                FlowView::EnsureAgain,
            )
        } else {
            (
                AppStateView {
                    metrics: Metrics { forwarding_errors: counted(m.forwarding_errors), ..m },
                    ..state
                },
                FlowView::Reply(forward_error_reply(error)),
            )
        },
    }
}

/// What follows from the second decision about the backend: nothing is counted again.
pub open spec fn retry_handled(
    state: AppStateView,
    kind: LifecycleRequest,
    decision: DecisionView,
) -> FlowView {
    match decision {
        DecisionView::Ready(_) => FlowView::ForwardDirectly(plan_for(state, kind)),
        DecisionView::Warming { retry_after_secs, .. } => FlowView::Reply(
            starting_reply(retry_after_secs),
        ),
        DecisionView::Failed { error, .. } => FlowView::Reply(failed_reply(error)),
    }
}

fn starting_response(retry_after_secs: u64) -> (r: ErrorReply)
    ensures
        r@ == starting_reply(retry_after_secs),
{
    openai_error(
        503,
        "warming_up",
        "backend is still starting".to_string(),
        Some(decimal_text(retry_after_secs).as_str()),
    )
}

fn failed_response(error: LifecycleError) -> (r: ErrorReply)
    ensures
        r@ == failed_reply(error@),
{
    openai_error(503, "backend_error", error.message, None)
}

fn warm_execution_error_response(error: WarmExecutionError) -> (r: ErrorReply)
    ensures
        r@ == overloaded_reply(error),
{
    openai_error(429, "overloaded", error.message().to_string(), None)
}

/// What follows from forwarding a request once more.
pub fn retry_finished(outcome: Result<(), ForwardError>) -> (r: FlowStep)
    ensures
        r@ == match outcome {
            Ok(_) => FlowView::Relay,
            Err(error) => FlowView::Reply(forward_error_reply(error@)),
        },
{
    match outcome {
        Ok(_) => FlowStep::Relay,
        Err(error) => FlowStep::Reply(error.to_openai()),
    }
}

/// What a request for a place among those that wait for a cold backend comes to, by the answer of
/// the semaphore: a place, or the answer to the client.
pub fn cold_place(offer: SlotOffer) -> (r: Result<OwnedSemaphorePermit, ErrorReply>)
    ensures
        match r {
            Ok(permit) => offer == SlotOffer::Granted(permit),
            Err(reply) => !(offer is Granted) && reply@ == cold_queue_reply(),
        },
{
    match offer {
        SlotOffer::Granted(permit) => Ok(permit),
        _ => Err(
            openai_error(
                503,
                "warming_up",
                "cold-start queue is full, retry later".to_string(),
                Some("10"),
            ),
        ),
    }
}

/// Requests from their arrival to their answer.
pub struct Orchestrator {
    pub state: AppState,
}

impl Orchestrator {
    pub fn new(state: AppState) -> (r: Orchestrator)
        ensures
            r.state == state,
    {
        Orchestrator { state }
    }

    /// A place among the requests that wait for a cold backend; none is needed for one that is not
    /// asleep.
    pub fn acquire_cold_permit(&self, kind: LifecycleRequest) -> (r: Result<
        Option<OwnedSemaphorePermit>,
        ErrorReply,
    >)
        ensures
            match r {
                Ok(None) => !(lifecycle_of(self.state@, kind).status.lifecycle is Cold),
                Ok(Some(permit)) => {
                    &&& lifecycle_of(self.state@, kind).status.lifecycle is Cold
                    &&& answered(self.state.cold_start_semaphore, SlotOffer::Granted(permit))
                    &&& taken_from(permit) == self.state@.cold_start_semaphore
                },
                Err(reply) => {
                    &&& lifecycle_of(self.state@, kind).status.lifecycle is Cold
                    &&& reply@ == cold_queue_reply()
                    &&& exists|offer: SlotOffer| #[trigger]
                        answered(self.state.cold_start_semaphore, offer) && !(offer is Granted)
                },
            },
    {
        if self.state.is_cold(kind) {
            match cold_place(ask_for_slot(&self.state.cold_start_semaphore)) {
                Ok(permit) => Ok(Some(permit)),
                Err(reply) => Err(reply),
            }
        } else {
            Ok(None)
        }
    }

    fn plan(&self, kind: LifecycleRequest) -> (r: ForwardPlan)
        ensures
            r@ == plan_for(self.state@, kind),
    {
        let path = match kind {
            LifecycleRequest::Chat => "/v1/chat/completions",
            LifecycleRequest::Embeddings => "/v1/embeddings",
        };
        ForwardPlan {
            config: ForwardConfig { port: self.state.tunnel_port_for(kind) },
            path: path.to_string(),
            model_alias: self.state.model_alias_for(kind).to_string(),
        }
    }

    fn handle_ready(&mut self, kind: LifecycleRequest, status: BackendStatus) -> (r: FlowStep)
        ensures
            (final(self).state@, r@) == ready_handled(old(self).state@, kind, status@),
    {
        if self.state.check_tunnel_drop(kind, status.tunnel) {
            self.state.metrics.inc_tunnel_drops();
        }
        if matches!(kind, LifecycleRequest::Embeddings) && matches!(
            status.embeddings,
            CapabilityState::Degraded
        ) {
            let message = match status.embeddings_reason {
                Some(reason) => reason,
                None => "embeddings are degraded".to_string(),
            };
            return FlowStep::Reply(openai_error(400, "unsupported_embeddings", message, None));
        }
        FlowStep::Forward(self.plan(kind))
    }

    /// Takes the decision about the backend.
    pub fn backend_decided(&mut self, kind: LifecycleRequest, decision: LifecycleDecision) -> (r:
        FlowStep)
        ensures
            (final(self).state@, r@) == decision_handled(old(self).state@, kind, decision@),
    {
        match decision {
            LifecycleDecision::Ready(status) => self.handle_ready(kind, status),
            LifecycleDecision::Warming { retry_after_secs, .. } => {
                self.state.metrics.inc_cold_starts();
                self.state.metrics.inc_wake_attempts();
                FlowStep::Reply(starting_response(retry_after_secs))
            },
            LifecycleDecision::Failed { error, .. } => {
                self.state.metrics.inc_wake_failures();
                FlowStep::Reply(failed_response(error))
            },
        }
    }

    fn degrade_embeddings(&mut self) -> (r: ErrorReply)
        ensures
            final(self).state@ == with_lifecycle_of(
                old(self).state@,
                LifecycleRequest::Embeddings,
                without_embeddings(
                    lifecycle_of(old(self).state@, LifecycleRequest::Embeddings),
                    missing_endpoint(),
                ),
            ),
            r@ == unsupported_reply(
                "upstream backend does not support embeddings: "@ + missing_endpoint(),
            ),
    {
        let lifecycle = self.state.lifecycle_for_mut(LifecycleRequest::Embeddings);
        lifecycle.degrade_embeddings("upstream returned 404".to_string());
        openai_error(
            400,
            "unsupported_embeddings",
            "upstream backend does not support embeddings: ".to_string().concat(
                "upstream returned 404",
            ),
            None,
        )
    }

    /// Takes what came of forwarding a request.
    pub fn forward_finished(
        &mut self,
        kind: LifecycleRequest,
        outcome: ForwardOutcome,
        policy: UnreachablePolicy,
    ) -> (r: FlowStep)
        ensures
            (final(self).state@, r@) == forward_handled(old(self).state@, kind, outcome@, policy),
    {
        match outcome {
            ForwardOutcome::Answered => {
                self.state.metrics.inc_warm_requests();
                FlowStep::Relay
            },
            ForwardOutcome::NotRun(WarmExecutionError::QueueFull) => {
                self.state.metrics.inc_queue_full();
                FlowStep::Reply(warm_execution_error_response(WarmExecutionError::QueueFull))
            },
            ForwardOutcome::NotRun(WarmExecutionError::QueueTimeout) => {
                self.state.metrics.inc_queue_timeouts();
                FlowStep::Reply(warm_execution_error_response(WarmExecutionError::QueueTimeout))
            },
            ForwardOutcome::Failed(ForwardError::EmbeddingsUnsupported) => {
                self.state.metrics.inc_embeddings_degraded();
                FlowStep::Reply(self.degrade_embeddings())
            },
            ForwardOutcome::Failed(error) => {
                if matches!(error, ForwardError::UpstreamUnreachable) && matches!(
                    policy,
                    UnreachablePolicy::Rewake
                ) {
                    self.state.metrics.inc_cold_starts();
                    self.state.metrics.inc_wake_attempts();
                    let lifecycle = self.state.lifecycle_for_mut(kind);
                    lifecycle.mark_unreachable();
                    return FlowStep::EnsureAgain;
                }
                self.state.metrics.inc_forwarding_errors();
                FlowStep::Reply(error.to_openai())
            },
        }
    }

    /// Takes the second decision about the backend.
    pub fn retry_decided(&self, kind: LifecycleRequest, decision: LifecycleDecision) -> (r:
        FlowStep)
        ensures
            r@ == retry_handled(self.state@, kind, decision@),
    {
        match decision {
            LifecycleDecision::Ready(_) => FlowStep::ForwardDirectly(self.plan(kind)),
            LifecycleDecision::Warming { retry_after_secs, .. } => FlowStep::Reply(
                starting_response(retry_after_secs),
            ),
            LifecycleDecision::Failed { error, .. } => FlowStep::Reply(failed_response(error)),
        }
    }
}

/// Whether a reply is one of those that clients are promised.
pub open spec fn promised(reply: ErrorReplyView) -> bool {
    ||| reply.status == 503 && reply.code == "warming_up"@
    ||| reply.status == 503 && reply.code == "backend_error"@
    ||| reply.status == 503 && reply.code == "backend_unavailable"@
    ||| reply.status == 503 && reply.code == "upstream_error"@
    ||| reply.status == 503 && reply.code == "request_cancelled"@
    ||| reply.status == 429 && reply.code == "overloaded"@
    ||| reply.status == 400 && reply.code == "unsupported_embeddings"@
}

/// Whether a reply asks the client to come back exactly if the backend is starting.
pub open spec fn retry_is_for_warming(reply: ErrorReplyView) -> bool {
    reply.retry_after is Some <==> reply.code == "warming_up"@
}

proof fn lemma_codes_differ()
    ensures
        "warming_up"@ != "backend_error"@,
        "warming_up"@ != "backend_unavailable"@,
        "warming_up"@ != "upstream_error"@,
        "warming_up"@ != "request_cancelled"@,
        "warming_up"@ != "overloaded"@,
        "warming_up"@ != "unsupported_embeddings"@,
{
    reveal_strlit("warming_up");
    reveal_strlit("backend_error");
    reveal_strlit("backend_unavailable");
    reveal_strlit("upstream_error");
    reveal_strlit("request_cancelled");
    reveal_strlit("overloaded");
    reveal_strlit("unsupported_embeddings");
    assert("warming_up"@[0] != "overloaded"@[0]);
    assert("warming_up"@.len() == 10);
    assert("backend_error"@.len() == 13);
    assert("backend_unavailable"@.len() == 19);
    assert("upstream_error"@.len() == 14);
    assert("request_cancelled"@.len() == 17);
    assert("unsupported_embeddings"@.len() == 22);
}

/// Every error that a request can come to is one of those that clients are promised, and carries a
/// `Retry-After` header exactly if the backend is starting.
pub proof fn replies_are_as_promised(
    state: AppStateView,
    kind: LifecycleRequest,
    decision: DecisionView,
    outcome: OutcomeView,
    policy: UnreachablePolicy,
    error: ForwardErrorView,
)
    ensures
        promised(cold_queue_reply()) && retry_is_for_warming(cold_queue_reply()),
        decision_handled(state, kind, decision).1 matches FlowView::Reply(reply) ==> promised(reply)
            && retry_is_for_warming(reply),
        forward_handled(state, kind, outcome, policy).1 matches FlowView::Reply(reply)
            ==> promised(reply) && retry_is_for_warming(reply),
        retry_handled(state, kind, decision) matches FlowView::Reply(reply) ==> promised(reply)
            && retry_is_for_warming(reply),
        promised(forward_error_reply(error)) && retry_is_for_warming(forward_error_reply(error)),
{
    lemma_codes_differ();
}

/// Every request is answered: the backend is made ready at most twice, and the request forwarded at
/// most twice, before there is an answer.
pub proof fn flow_ends(
    state: AppStateView,
    kind: LifecycleRequest,
    decision: DecisionView,
    outcome: OutcomeView,
    policy: UnreachablePolicy,
)
    ensures
        decision_handled(state, kind, decision).1 is Reply || decision_handled(
            state,
            kind,
            decision,
        ).1 is Forward,
        forward_handled(state, kind, outcome, policy).1 is Reply || forward_handled(
            state,
            kind,
            outcome,
            policy,
        ).1 is Relay || forward_handled(state, kind, outcome, policy).1 is EnsureAgain,
        retry_handled(state, kind, decision) is Reply || retry_handled(state, kind, decision)
            is ForwardDirectly,
{
}

/// A request is forwarded only to a backend that was decided to be ready, and to the place and
/// under the name that serve its kind.
pub proof fn only_ready_backends_are_used(
    state: AppStateView,
    kind: LifecycleRequest,
    decision: DecisionView,
)
    ensures
        decision_handled(state, kind, decision).1 matches FlowView::Forward(plan) ==> decision
            is Ready && plan == plan_for(state, kind),
        retry_handled(state, kind, decision) is ForwardDirectly <==> decision is Ready,
{
}

/// A chat request to a backend that is ready is always forwarded; one for embeddings is, unless the
/// backend is known to be without them.
pub proof fn ready_backend_is_used(
    state: AppStateView,
    kind: LifecycleRequest,
    status: BackendStatusView,
)
    requires
        kind is Chat || status.embeddings is Ready,
    ensures
        decision_handled(state, kind, DecisionView::Ready(status)).1 == FlowView::Forward(
            plan_for(state, kind),
        ),
{
}

/// After a backend has turned out to be without the embeddings endpoint, later requests for
/// embeddings are refused for that reason as long as it is ready, and chat is served as before.
pub proof fn missing_embeddings_are_remembered(
    state: AppStateView,
    kind: LifecycleRequest,
    policy: UnreachablePolicy,
)
    ensures
        ({
            let after = forward_handled(
                state,
                kind,
                OutcomeView::Failed(ForwardErrorView::EmbeddingsUnsupported),
                policy,
            ).0;
            let status = lifecycle_of(after, LifecycleRequest::Embeddings).status;
            &&& decision_handled(
                after,
                LifecycleRequest::Embeddings,
                DecisionView::Ready(status),
            ).1 == FlowView::Reply(unsupported_reply(missing_endpoint()))
            &&& decision_handled(
                after,
                LifecycleRequest::Chat,
                DecisionView::Ready(lifecycle_of(after, LifecycleRequest::Chat).status),
            ).1 is Forward
        }),
{
}

/// After a backend has turned out not to answer, no request is told that it is ready until it has
/// been looked at again; and the first one to look wakes the host where SSH does not answer.
pub proof fn silent_backend_is_started_afresh(
    state: AppStateView,
    kind: LifecycleRequest,
    request: LifecycleRequest,
)
    ensures
        ({
            let (after, step) = forward_handled(
                state,
                kind,
                OutcomeView::Failed(ForwardErrorView::UpstreamUnreachable),
                UnreachablePolicy::Rewake,
            );
            let next = ensured(lifecycle_of(after, kind), request).1;
            &&& step is EnsureAgain
            &&& !(next is Decided)
            &&& !lifecycle_of(state, kind).active ==> next is Observe && after_ssh(
                next->Observe_0,
                Ok(false),
            ) is Wake
        }),
{
}

/// The number of requests that were counted as served, turned away, failed or started cold.
pub open spec fn outcomes_counted(m: Metrics) -> int {
    m.warm_requests + m.queue_full_rejections + m.queue_timeouts + m.embeddings_degraded
        + m.forwarding_errors + m.cold_starts
}

/// Whatever comes of forwarding a request is counted, once.
pub proof fn outcome_is_counted_once(
    state: AppStateView,
    kind: LifecycleRequest,
    outcome: OutcomeView,
    policy: UnreachablePolicy,
)
    requires
        state.metrics.warm_requests < u64::MAX,
        state.metrics.queue_full_rejections < u64::MAX,
        state.metrics.queue_timeouts < u64::MAX,
        state.metrics.embeddings_degraded < u64::MAX,
        state.metrics.forwarding_errors < u64::MAX,
        state.metrics.cold_starts < u64::MAX,
    ensures
        outcomes_counted(forward_handled(state, kind, outcome, policy).0.metrics)
            == outcomes_counted(state.metrics) + 1,
{
}

/// What the helper has against a model server reaches the client in its own words: where the server
/// runs another model, or could not be started, the client is told so.
pub proof fn helper_complaint_reaches_client(
    state: AppStateView,
    kind: LifecycleRequest,
    seen: ObservationView,
    response: EnsureStartedView,
    at: Timestamp,
    sent: Result<(), Seq<char>>,
    tunnel: Result<TunnelState, Seq<char>>,
)
    requires
        !(response.status is Okay),
    ensures
        ({
            let decision = observed(seen, Ok(true), at, sent, Ok(start_report(response)), tunnel);
            decision_handled(state, kind, decision).1 == FlowView::Reply(
                failed_reply(response.message),
            )
        }),
{
}

/// Whether a plan leads to the model server for a kind of request: to its endpoint, through its
/// tunnel, and under its name. Embeddings have their own where they have a model server of their own.
pub open spec fn leads_to(plan: ForwardPlan, config: AppConfig, kind: LifecycleRequest) -> bool {
    match (kind, config.embeddings.backend) {
        (LifecycleRequest::Chat, _) => {
            &&& plan.path@ == "/v1/chat/completions"@
            &&& plan.config.port == config.host.tunnel_local_port
            &&& plan.model_alias@ == config.model.alias@
        },
        (LifecycleRequest::Embeddings, Some(backend)) => {
            &&& plan.path@ == "/v1/embeddings"@
            &&& plan.config.port == backend.tunnel_local_port
            &&& plan.model_alias@ == backend.alias@
        },
        (LifecycleRequest::Embeddings, None) => {
            &&& plan.path@ == "/v1/embeddings"@
            &&& plan.config.port == config.host.tunnel_local_port
            &&& plan.model_alias@ == config.model.alias@
        },
    }
}

/// Whether a reply is final and says this.
pub open spec fn says(reply: ErrorReply, status: u16, code: Seq<char>, message: Seq<char>) -> bool {
    &&& reply.status == status
    &&& reply.code@ == code
    &&& reply.message@ == message
    &&& reply.retry_after is None
}

/// Whether a reply says that the backend is starting, and to come back after so many seconds.
pub open spec fn says_starting(reply: ErrorReply, retry_after_secs: u64) -> bool {
    &&& reply.status == 503
    &&& reply.code@ == "warming_up"@
    &&& reply.message@ == "backend is still starting"@
    &&& reply.retry_after matches Some(text) && text@ == decimal(retry_after_secs as nat)
}

/// Whether only the counters and what was seen of the tunnels differ between two states.
pub open spec fn same_backends(before: AppState, after: AppState) -> bool {
    &&& after.chat_lifecycle@ == before.chat_lifecycle@
    &&& after@.embeddings == before@.embeddings
    &&& after.config@ == before.config@
    &&& after.scheduler.queue.queued == before.scheduler.queue.queued
    &&& after.scheduler.config == before.scheduler.config
}

/// A request for a backend that is ready is forwarded to the model server for its kind, unless it is
/// for embeddings that the backend is known not to have: then it is refused with the reason. A request
/// for one that is starting is told to come back; one for a backend that failed is told why.
pub proof fn decision_is_carried_out(
    o: &mut Orchestrator,
    kind: LifecycleRequest,
    decision: LifecycleDecision,
    step: FlowStep,
)
    requires
        call_ensures(Orchestrator::backend_decided, (o, kind, decision), step),
    ensures
        same_backends(old(o).state, final(o).state),
        match (decision, step) {
            (LifecycleDecision::Ready(status), FlowStep::Forward(plan)) => {
                &&& kind is Chat || status.embeddings is Ready
                &&& leads_to(plan, old(o).state.config, kind)
            },
            (LifecycleDecision::Ready(status), FlowStep::Reply(reply)) => {
                &&& kind is Embeddings && status.embeddings is Degraded
                &&& says(
                    reply,
                    400,
                    "unsupported_embeddings"@,
                    match status.embeddings_reason {
                        Some(reason) => reason@,
                        None => "embeddings are degraded"@,
                    },
                )
            },
            (LifecycleDecision::Warming { retry_after_secs, .. }, FlowStep::Reply(reply)) => {
                says_starting(reply, retry_after_secs)
            },
            (LifecycleDecision::Failed { error, .. }, FlowStep::Reply(reply)) => {
                says(reply, 503, "backend_error"@, error.message@)
            },
            _ => false,
        },
{
}

/// A decision is counted as what it is: a backend that is starting as a cold start and an attempt to
/// wake it, one that failed as a failure, a tunnel of that kind of request that is no longer ready as
/// one that went down; and nothing else is counted.
pub proof fn decision_is_counted(
    o: &mut Orchestrator,
    kind: LifecycleRequest,
    decision: LifecycleDecision,
    step: FlowStep,
)
    requires
        call_ensures(Orchestrator::backend_decided, (o, kind, decision), step),
    ensures
        ({
            let before = old(o).state.metrics;
            let after = final(o).state.metrics;
            let was_ready = match kind {
                LifecycleRequest::Chat => old(o).state.prev_chat_tunnel_was_ready,
                LifecycleRequest::Embeddings => old(o).state.prev_embeddings_tunnel_was_ready,
            };
            match decision {
                LifecycleDecision::Ready(status) => if was_ready && !(status.tunnel is Ready) {
                    one_more(before.tunnel_drops, after.tunnel_drops) && after == (Metrics {
                        tunnel_drops: after.tunnel_drops,
                        ..before
                    })
                } else {
                    after == before
                },
                LifecycleDecision::Warming { .. } => {
                    &&& one_more(before.cold_starts, after.cold_starts)
                    &&& one_more(before.wake_attempts, after.wake_attempts)
                    &&& after == (Metrics {
                        cold_starts: after.cold_starts,
                        wake_attempts: after.wake_attempts,
                        ..before
                    })
                },
                LifecycleDecision::Failed { .. } => {
                    &&& one_more(before.wake_failures, after.wake_failures)
                    &&& after == (Metrics { wake_failures: after.wake_failures, ..before })
                },
            }
        }),
        ({
            let seen = decision matches LifecycleDecision::Ready(status) && status.tunnel is Ready;
            &&& decision is Ready && kind is Chat ==> (
            final(o).state.prev_chat_tunnel_was_ready <==> seen)
            &&& decision is Ready && kind is Embeddings ==> (
            final(o).state.prev_embeddings_tunnel_was_ready <==> seen)
            &&& !(decision is Ready && kind is Chat) ==> final(o).state.prev_chat_tunnel_was_ready
                == old(o).state.prev_chat_tunnel_was_ready
            &&& !(decision is Ready && kind is Embeddings)
                ==> final(o).state.prev_embeddings_tunnel_was_ready
                == old(o).state.prev_embeddings_tunnel_was_ready
        }),
{
}

/// The answer of the backend is relayed; a request that was not run is told that the proxy is
/// overloaded, and why; an endpoint that is missing means that there are no embeddings; a backend that
/// does not answer is made ready again, where that is wanted; and any other failure is reported as
/// what it is.
pub proof fn outcome_is_answered(
    o: &mut Orchestrator,
    kind: LifecycleRequest,
    outcome: ForwardOutcome,
    policy: UnreachablePolicy,
    step: FlowStep,
)
    requires
        call_ensures(Orchestrator::forward_finished, (o, kind, outcome, policy), step),
    ensures
        match (outcome, step) {
            (ForwardOutcome::Answered, FlowStep::Relay) => true,
            (ForwardOutcome::NotRun(WarmExecutionError::QueueFull), FlowStep::Reply(reply)) => {
                says(reply, 429, "overloaded"@, "warm execution queue is full"@)
            },
            (ForwardOutcome::NotRun(WarmExecutionError::QueueTimeout), FlowStep::Reply(reply)) => {
                says(
                    reply,
                    429,
                    "overloaded"@,
                    "request did not start before the warm queue timeout"@,
                )
            },
            (ForwardOutcome::Failed(ForwardError::EmbeddingsUnsupported), FlowStep::Reply(reply)) => {
                says(
                    reply,
                    400,
                    "unsupported_embeddings"@,
                    "upstream backend does not support embeddings: "@ + "upstream returned 404"@,
                )
            },
            (ForwardOutcome::Failed(ForwardError::UpstreamUnreachable), FlowStep::EnsureAgain) => {
                policy is Rewake
            },
            (ForwardOutcome::Failed(ForwardError::UpstreamUnreachable), FlowStep::Reply(reply)) => {
                &&& policy is Report
                &&& says(
                    reply,
                    503,
                    "backend_unavailable"@,
                    "upstream backend is not reachable"@,
                )
            },
            (ForwardOutcome::Failed(ForwardError::UpstreamError(_, message)), FlowStep::Reply(reply)) => {
                says(reply, 503, "upstream_error"@, message@)
            },
            (ForwardOutcome::Failed(ForwardError::Cancelled), FlowStep::Reply(reply)) => {
                says(reply, 503, "request_cancelled"@, "request was cancelled"@)
            },
            _ => false,
        },
{
}

/// What comes of forwarding is counted as what it is, and nothing else is.
pub proof fn outcome_is_counted_as_what_it_is(
    o: &mut Orchestrator,
    kind: LifecycleRequest,
    outcome: ForwardOutcome,
    policy: UnreachablePolicy,
    step: FlowStep,
)
    requires
        call_ensures(Orchestrator::forward_finished, (o, kind, outcome, policy), step),
    ensures
        ({
            let before = old(o).state.metrics;
            let after = final(o).state.metrics;
            match outcome {
                ForwardOutcome::Answered => {
                    &&& one_more(before.warm_requests, after.warm_requests)
                    &&& after == (Metrics { warm_requests: after.warm_requests, ..before })
                },
                ForwardOutcome::NotRun(WarmExecutionError::QueueFull) => {
                    &&& one_more(before.queue_full_rejections, after.queue_full_rejections)
                    &&& after == (Metrics {
                        queue_full_rejections: after.queue_full_rejections,
                        ..before
                    })
                },
                ForwardOutcome::NotRun(WarmExecutionError::QueueTimeout) => {
                    &&& one_more(before.queue_timeouts, after.queue_timeouts)
                    &&& after == (Metrics { queue_timeouts: after.queue_timeouts, ..before })
                },
                ForwardOutcome::Failed(ForwardError::EmbeddingsUnsupported) => {
                    &&& one_more(before.embeddings_degraded, after.embeddings_degraded)
                    &&& after == (Metrics {
                        embeddings_degraded: after.embeddings_degraded,
                        ..before
                    })
                },
                ForwardOutcome::Failed(error) => if error is UpstreamUnreachable && policy
                    is Rewake {
                    &&& one_more(before.cold_starts, after.cold_starts)
                    &&& one_more(before.wake_attempts, after.wake_attempts)
                    &&& after == (Metrics {
                        cold_starts: after.cold_starts,
                        wake_attempts: after.wake_attempts,
                        ..before
                    })
                } else {
                    &&& one_more(before.forwarding_errors, after.forwarding_errors)
                    &&& after == (Metrics { forwarding_errors: after.forwarding_errors, ..before })
                },
            }
        }),
{
}

/// What comes of forwarding changes the backend of the request only where it shows something of it:
/// that it has no embeddings, which is noted of the one that serves them, or that it does not answer.
pub proof fn outcome_is_noted_of_its_backend(
    o: &mut Orchestrator,
    kind: LifecycleRequest,
    outcome: ForwardOutcome,
    policy: UnreachablePolicy,
    step: FlowStep,
)
    requires
        call_ensures(Orchestrator::forward_finished, (o, kind, outcome, policy), step),
    ensures
        final(o).state.config@ == old(o).state.config@,
        final(o).state.scheduler.queue.queued == old(o).state.scheduler.queue.queued,
        final(o).state.embeddings_lifecycle is Some <==> old(o).state.embeddings_lifecycle is Some,
        ({
            let missing = outcome matches ForwardOutcome::Failed(error) && error
                is EmbeddingsUnsupported;
            let silent = outcome matches ForwardOutcome::Failed(error) && error
                is UpstreamUnreachable && policy is Rewake;
            let dual = old(o).state.embeddings_lifecycle is Some;
            let chat = final(o).state.chat_lifecycle;
            let chat_before = old(o).state.chat_lifecycle;
            let own = final(o).state.embeddings_lifecycle->0;
            let own_before = old(o).state.embeddings_lifecycle->0;
            let touches_own = dual && (missing || (silent && kind is Embeddings));
            let touches_chat = (missing && !dual) || (silent && (kind is Chat || !dual));
            let touched = if touches_own {
                own
            } else {
                chat
            };
            let touched_before = if touches_own {
                own_before
            } else {
                chat_before
            };
            &&& !touches_chat ==> chat@ == chat_before@
            &&& dual && !touches_own ==> own@ == own_before@
            &&& missing ==> {
                &&& touched.status.embeddings is Degraded
                &&& touched.status.embeddings_reason matches Some(why)
                &&& why@ == "upstream returned 404"@
                &&& touched.status.lifecycle == touched_before.status.lifecycle
                &&& touched.status.tunnel == touched_before.status.tunnel
                &&& touched.status.chat == touched_before.status.chat
            }
            &&& silent ==> {
                &&& !(touched.status.lifecycle is Ready)
                &&& touched.status.tunnel is Down
                &&& !touched_before.bootstrap.active ==> touched.status.lifecycle is Cold
                &&& touched.status.embeddings == touched_before.status.embeddings
                &&& touched.status.chat == touched_before.status.chat
                &&& touched.bootstrap.active == touched_before.bootstrap.active
            }
        }),
{
}

/// A request that is forwarded once more goes where it went before: to the model server for its kind,
/// whichever that is. Where the backend is not ready, it is answered as any other.
pub proof fn second_forward_goes_where_the_first_went(
    o: &Orchestrator,
    kind: LifecycleRequest,
    decision: LifecycleDecision,
    step: FlowStep,
)
    requires
        call_ensures(Orchestrator::retry_decided, (o, kind, decision), step),
    ensures
        match (decision, step) {
            (LifecycleDecision::Ready(_), FlowStep::ForwardDirectly(plan)) => {
                leads_to(plan, o.state.config, kind)
            },
            (LifecycleDecision::Warming { retry_after_secs, .. }, FlowStep::Reply(reply)) => {
                says_starting(reply, retry_after_secs)
            },
            (LifecycleDecision::Failed { error, .. }, FlowStep::Reply(reply)) => {
                says(reply, 503, "backend_error"@, error.message@)
            },
            _ => false,
        },
{
}

/// The same of two calls: the plan of the second forward is the plan of the first.
pub proof fn both_forwards_have_one_plan(
    o: &mut Orchestrator,
    kind: LifecycleRequest,
    first: LifecycleDecision,
    plan: ForwardPlan,
    later: &Orchestrator,
    second: LifecycleDecision,
    again: ForwardPlan,
)
    requires
        call_ensures(Orchestrator::backend_decided, (o, kind, first), FlowStep::Forward(plan)),
        later.state.config@ == old(o).state.config@,
        call_ensures(
            Orchestrator::retry_decided,
            (later, kind, second),
            FlowStep::ForwardDirectly(again),
        ),
    ensures
        again.path@ == plan.path@,
        again.config.port == plan.config.port,
        again.model_alias@ == plan.model_alias@,
{
}

/// A second failure is reported as what it is, and a second answer is relayed.
pub proof fn second_outcome_is_the_answer(outcome: Result<(), ForwardError>, step: FlowStep)
    requires
        call_ensures(retry_finished, (outcome,), step),
    ensures
        match (outcome, step) {
            (Ok(_), FlowStep::Relay) => true,
            (Err(ForwardError::UpstreamUnreachable), FlowStep::Reply(reply)) => says(
                reply,
                503,
                "backend_unavailable"@,
                "upstream backend is not reachable"@,
            ),
            (Err(ForwardError::UpstreamError(_, message)), FlowStep::Reply(reply)) => says(
                reply,
                503,
                "upstream_error"@,
                message@,
            ),
            (Err(ForwardError::Cancelled), FlowStep::Reply(reply)) => says(
                reply,
                503,
                "request_cancelled"@,
                "request was cancelled"@,
            ),
            (Err(ForwardError::EmbeddingsUnsupported), FlowStep::Reply(reply)) => says(
                reply,
                400,
                "unsupported_embeddings"@,
                "upstream backend does not support embeddings"@,
            ),
            _ => false,
        },
{
}

/// A request for a cold backend for which there is no place is told that the queue is full and to come
/// back; a place that was granted is the one that is taken.
pub proof fn full_cold_queue_is_told(
    offer: SlotOffer,
    r: Result<OwnedSemaphorePermit, ErrorReply>,
)
    requires
        call_ensures(cold_place, (offer,), r),
    ensures
        match (offer, r) {
            (SlotOffer::Granted(permit), Ok(taken)) => taken == permit,
            (SlotOffer::Granted(_), _) => false,
            (_, Err(reply)) => {
                &&& reply.status == 503
                &&& reply.code@ == "warming_up"@
                &&& reply.message@ == "cold-start queue is full, retry later"@
                &&& reply.retry_after matches Some(text) && text@ == "10"@
            },
            _ => false,
        },
{
}

/// A place among those that wait for a cold backend is asked for exactly if the backend of that kind
/// of request is asleep.
pub proof fn cold_backends_have_places(
    o: &Orchestrator,
    kind: LifecycleRequest,
    r: Result<Option<OwnedSemaphorePermit>, ErrorReply>,
)
    requires
        call_ensures(Orchestrator::acquire_cold_permit, (o, kind), r),
    ensures
        ({
            let cold = match (kind, o.state.embeddings_lifecycle) {
                (LifecycleRequest::Embeddings, Some(own)) => own.status.lifecycle is Cold,
                _ => o.state.chat_lifecycle.status.lifecycle is Cold,
            };
            &&& !cold ==> r is Ok && r->Ok_0 is None
            &&& cold ==> !(r is Ok && r->Ok_0 is None)
            &&& r matches Ok(Some(permit)) ==> taken_from(permit) == *o.state.cold_start_semaphore
            &&& r matches Err(reply) ==> reply.status == 503 && reply.code@ == "warming_up"@
                && reply.message@ == "cold-start queue is full, retry later"@
        }),
{
}

/// A request of any kind to a cold backend is forwarded to its model server once SSH answers, the
/// helper reports the backend and the abilities that it needs ready, and the tunnel opens.
pub proof fn cold_backend_serves_what_its_helper_reports(
    o: &mut Orchestrator,
    kind: LifecycleRequest,
    m: &mut LifecycleManager,
    seen: Observation,
    reached: Observation,
    report: ObservedBackendState,
    ready: Observation,
    decision: LifecycleDecision,
    step: FlowStep,
)
    requires
        call_ensures(LifecycleManager::ensure_backend, (m, kind), EnsureStep::Observe(seen)),
        call_ensures(
            Observation::ssh_probed,
            (seen, Ok(true)),
            ObservationStep::ObserveBackend(reached),
        ),
        call_ensures(
            Observation::backend_observed,
            (reached, Ok(report)),
            ObservationStep::EnsureTunnel(ready),
        ),
        call_ensures(Observation::tunnel_ensured, (ready, Ok(TunnelState::Ready)), decision),
        call_ensures(Orchestrator::backend_decided, (o, kind, decision), step),
        report.embeddings is Ready,
    ensures
        decision is Ready,
        step matches FlowStep::Forward(plan) && leads_to(plan, old(o).state.config, kind),
{
    report_is_passed_on(reached, report, ObservationStep::EnsureTunnel(ready));
    tunnel_completes_readiness(ready, Ok(TunnelState::Ready), decision);
}

/// An orchestrator starts with the state that it is given.
pub proof fn orchestrator_has_its_state(state: AppState, o: Orchestrator)
    requires
        call_ensures(Orchestrator::new, (state,), o),
    ensures
        o.state == state,
{
}

} // verus!
