//! Counters of what the proxy did.

use serde_json::Value;
use vstd::prelude::*;

use crate::json;
use crate::json::{json_tree, JsonTree};
use crate::numeral::decimal;

verus! {

/// The counters. A counter that overflows starts again at zero.
#[derive(Debug)]
pub struct Metrics {
    pub cold_starts: u64,
    pub warm_requests: u64,
    pub queue_full_rejections: u64,
    pub queue_timeouts: u64,
    pub wake_attempts: u64,
    pub wake_failures: u64,
    pub tunnel_drops: u64,
    pub embeddings_degraded: u64,
    pub forwarding_errors: u64,
    pub chat_requests: u64,
    pub embeddings_requests: u64,
}

/// The counters at some moment.
#[derive(Debug)]
pub struct MetricsSnapshot {
    pub cold_starts: u64,
    pub warm_requests: u64,
    pub queue_full_rejections: u64,
    pub queue_timeouts: u64,
    pub wake_attempts: u64,
    pub wake_failures: u64,
    pub tunnel_drops: u64,
    pub embeddings_degraded: u64,
    pub forwarding_errors: u64,
    pub chat_requests: u64,
    pub embeddings_requests: u64,
}

/// A counter that has counted once more.
pub open spec fn counted(n: u64) -> u64 {
    if n == u64::MAX {
        0
    } else {
        (n + 1) as u64
    }
}

fn count(n: u64) -> (r: u64)
    ensures
        r == counted(n),
{
    if n == u64::MAX {
        0
    } else {
        n + 1
    }
}

/// The counters of a proxy that has done nothing yet.
pub open spec fn zero_metrics() -> Metrics {
    Metrics {
        cold_starts: 0,
        warm_requests: 0,
        queue_full_rejections: 0,
        queue_timeouts: 0,
        wake_attempts: 0,
        wake_failures: 0,
        tunnel_drops: 0,
        embeddings_degraded: 0,
        forwarding_errors: 0,
        chat_requests: 0,
        embeddings_requests: 0,
    }
}

/// What is counted.
pub enum Counted {
    ColdStart,
    WarmRequest,
    QueueFullRejection,
    QueueTimeout,
    WakeAttempt,
    WakeFailure,
    TunnelDrop,
    EmbeddingsDegraded,
    ForwardingError,
    ChatRequest,
    EmbeddingsRequest,
}

/// The counters after something was counted: its own counter has counted once more, and the others
/// are as they were.
pub open spec fn after_count(m: Metrics, what: Counted) -> Metrics {
    match what {
        Counted::ColdStart => Metrics { cold_starts: counted(m.cold_starts), ..m },
        Counted::WarmRequest => Metrics { warm_requests: counted(m.warm_requests), ..m },
        Counted::QueueFullRejection => Metrics {
            queue_full_rejections: counted(m.queue_full_rejections),
            ..m
        },
        Counted::QueueTimeout => Metrics { queue_timeouts: counted(m.queue_timeouts), ..m },
        Counted::WakeAttempt => Metrics { wake_attempts: counted(m.wake_attempts), ..m },
        Counted::WakeFailure => Metrics { wake_failures: counted(m.wake_failures), ..m },
        Counted::TunnelDrop => Metrics { tunnel_drops: counted(m.tunnel_drops), ..m },
        Counted::EmbeddingsDegraded => Metrics {
            embeddings_degraded: counted(m.embeddings_degraded),
            ..m
        },
        Counted::ForwardingError => Metrics {
            forwarding_errors: counted(m.forwarding_errors),
            ..m
        },
        Counted::ChatRequest => Metrics { chat_requests: counted(m.chat_requests), ..m },
        Counted::EmbeddingsRequest => Metrics {
            embeddings_requests: counted(m.embeddings_requests),
            ..m
        },
    }
}

/// The counters of a proxy that has counted all this, in this order.
pub open spec fn after_counts(history: Seq<Counted>) -> Metrics
    decreases history.len(),
{
    if history.len() == 0 {
        zero_metrics()
    } else {
        after_count(after_counts(history.drop_last()), history.last())
    }
}

/// How often something was counted.
pub open spec fn times(history: Seq<Counted>, what: Counted) -> nat
    decreases history.len(),
{
    if history.len() == 0 {
        0
    } else if history.last() == what {
        times(history.drop_last(), what) + 1
    } else {
        times(history.drop_last(), what)
    }
}

impl Default for Metrics {
    fn default() -> (r: Metrics)
        ensures
            r == zero_metrics(),
    {
        Metrics {
            cold_starts: 0,
            warm_requests: 0,
            queue_full_rejections: 0,
            queue_timeouts: 0,
            wake_attempts: 0,
            wake_failures: 0,
            tunnel_drops: 0,
            embeddings_degraded: 0,
            forwarding_errors: 0,
            chat_requests: 0,
            embeddings_requests: 0,
        }
    }
}

/// The counters at some moment, as JSON.
pub open spec fn metrics_tree(m: Metrics) -> JsonTree {
    JsonTree::Object(
        map![
            "cold_starts"@ => JsonTree::Number(decimal(m.cold_starts as nat)),
            "warm_requests"@ => JsonTree::Number(decimal(m.warm_requests as nat)),
            "queue_full_rejections"@ => JsonTree::Number(decimal(m.queue_full_rejections as nat)),
            "queue_timeouts"@ => JsonTree::Number(decimal(m.queue_timeouts as nat)),
            "wake_attempts"@ => JsonTree::Number(decimal(m.wake_attempts as nat)),
            "wake_failures"@ => JsonTree::Number(decimal(m.wake_failures as nat)),
            "tunnel_drops"@ => JsonTree::Number(decimal(m.tunnel_drops as nat)),
            "embeddings_degraded"@ => JsonTree::Number(decimal(m.embeddings_degraded as nat)),
            "forwarding_errors"@ => JsonTree::Number(decimal(m.forwarding_errors as nat)),
            "chat_requests"@ => JsonTree::Number(decimal(m.chat_requests as nat)),
            "embeddings_requests"@ => JsonTree::Number(decimal(m.embeddings_requests as nat)),
        ],
    )
}

/// The counters that a snapshot was taken of.
pub open spec fn snapshot_of(s: MetricsSnapshot) -> Metrics {
    Metrics {
        cold_starts: s.cold_starts,
        warm_requests: s.warm_requests,
        queue_full_rejections: s.queue_full_rejections,
        queue_timeouts: s.queue_timeouts,
        wake_attempts: s.wake_attempts,
        wake_failures: s.wake_failures,
        tunnel_drops: s.tunnel_drops,
        embeddings_degraded: s.embeddings_degraded,
        forwarding_errors: s.forwarding_errors,
        chat_requests: s.chat_requests,
        embeddings_requests: s.embeddings_requests,
    }
}

impl MetricsSnapshot {
    pub fn to_json(&self) -> (r: Value)
        ensures
            json_tree(r) == metrics_tree(snapshot_of(*self)),
    {
        let mut r = json::null();
        json::set_field(&mut r, "cold_starts", json::unsigned(self.cold_starts));
        json::set_field(&mut r, "warm_requests", json::unsigned(self.warm_requests));
        json::set_field(&mut r, "queue_full_rejections", json::unsigned(self.queue_full_rejections));
        json::set_field(&mut r, "queue_timeouts", json::unsigned(self.queue_timeouts));
        json::set_field(&mut r, "wake_attempts", json::unsigned(self.wake_attempts));
        json::set_field(&mut r, "wake_failures", json::unsigned(self.wake_failures));
        json::set_field(&mut r, "tunnel_drops", json::unsigned(self.tunnel_drops));
        json::set_field(&mut r, "embeddings_degraded", json::unsigned(self.embeddings_degraded));
        json::set_field(&mut r, "forwarding_errors", json::unsigned(self.forwarding_errors));
        json::set_field(&mut r, "chat_requests", json::unsigned(self.chat_requests));
        json::set_field(&mut r, "embeddings_requests", json::unsigned(self.embeddings_requests));
        r
    }
}

impl Metrics {
    pub fn snapshot(&self) -> (r: MetricsSnapshot)
        ensures
            snapshot_of(r) == *self,
    {
        MetricsSnapshot {
            cold_starts: self.cold_starts,
            warm_requests: self.warm_requests,
            queue_full_rejections: self.queue_full_rejections,
            queue_timeouts: self.queue_timeouts,
            wake_attempts: self.wake_attempts,
            wake_failures: self.wake_failures,
            tunnel_drops: self.tunnel_drops,
            embeddings_degraded: self.embeddings_degraded,
            forwarding_errors: self.forwarding_errors,
            chat_requests: self.chat_requests,
            embeddings_requests: self.embeddings_requests,
        }
    }

    /// Counts a cold start.
    pub fn inc_cold_starts(&mut self)
        ensures
            *final(self) == after_count(*old(self), Counted::ColdStart),
    {
        self.cold_starts = count(self.cold_starts);
    }

    /// Counts a request served by a warm backend.
    pub fn inc_warm_requests(&mut self)
        ensures
            *final(self) == after_count(*old(self), Counted::WarmRequest),
    {
        self.warm_requests = count(self.warm_requests);
    }

    /// Counts a request turned away because the queue was full.
    pub fn inc_queue_full(&mut self)
        ensures
            *final(self) == after_count(*old(self), Counted::QueueFullRejection),
    {
        self.queue_full_rejections = count(self.queue_full_rejections);
    }

    /// Counts a request that waited too long in the queue.
    pub fn inc_queue_timeouts(&mut self)
        ensures
            *final(self) == after_count(*old(self), Counted::QueueTimeout),
    {
        self.queue_timeouts = count(self.queue_timeouts);
    }

    /// Counts an attempt to wake the host.
    pub fn inc_wake_attempts(&mut self)
        ensures
            *final(self) == after_count(*old(self), Counted::WakeAttempt),
    {
        self.wake_attempts = count(self.wake_attempts);
    }

    /// Counts a failed attempt to make the backend ready.
    pub fn inc_wake_failures(&mut self)
        ensures
            *final(self) == after_count(*old(self), Counted::WakeFailure),
    {
        self.wake_failures = count(self.wake_failures);
    }

    /// Counts a tunnel that went down.
    pub fn inc_tunnel_drops(&mut self)
        ensures
            *final(self) == after_count(*old(self), Counted::TunnelDrop),
    {
        self.tunnel_drops = count(self.tunnel_drops);
    }

    /// Counts a backend found to have no embeddings.
    pub fn inc_embeddings_degraded(&mut self)
        ensures
            *final(self) == after_count(*old(self), Counted::EmbeddingsDegraded),
    {
        self.embeddings_degraded = count(self.embeddings_degraded);
    }

    /// Counts a request that could not be forwarded.
    pub fn inc_forwarding_errors(&mut self)
        ensures
            *final(self) == after_count(*old(self), Counted::ForwardingError),
    {
        self.forwarding_errors = count(self.forwarding_errors);
    }

    /// Counts a chat request.
    pub fn inc_chat_requests(&mut self)
        ensures
            *final(self) == after_count(*old(self), Counted::ChatRequest),
    {
        self.chat_requests = count(self.chat_requests);
    }

    /// Counts an embeddings request.
    pub fn inc_embeddings_requests(&mut self)
        ensures
            *final(self) == after_count(*old(self), Counted::EmbeddingsRequest),
    {
        self.embeddings_requests = count(self.embeddings_requests);
    }
}

/// Every counter is the number of times that its own event was counted, whatever else was counted and
/// in whatever order, as long as nothing is counted 2^64 times.
pub proof fn counters_count_their_events(history: Seq<Counted>)
    requires
        forall|what: Counted| #[trigger] times(history, what) <= u64::MAX,
    ensures
        ({
            let m = after_counts(history);
            &&& m.cold_starts == times(history, Counted::ColdStart)
            &&& m.warm_requests == times(history, Counted::WarmRequest)
            &&& m.queue_full_rejections == times(history, Counted::QueueFullRejection)
            &&& m.queue_timeouts == times(history, Counted::QueueTimeout)
            &&& m.wake_attempts == times(history, Counted::WakeAttempt)
            &&& m.wake_failures == times(history, Counted::WakeFailure)
            &&& m.tunnel_drops == times(history, Counted::TunnelDrop)
            &&& m.embeddings_degraded == times(history, Counted::EmbeddingsDegraded)
            &&& m.forwarding_errors == times(history, Counted::ForwardingError)
            &&& m.chat_requests == times(history, Counted::ChatRequest)
            &&& m.embeddings_requests == times(history, Counted::EmbeddingsRequest)
        }),
    decreases history.len(),
{
    if history.len() > 0 {
        assert forall|what: Counted| #[trigger] times(history.drop_last(), what) <= u64::MAX by {
            assert(times(history, what) <= u64::MAX);
        }
        counters_count_their_events(history.drop_last());
        assert(times(history, Counted::ColdStart) <= u64::MAX);
        assert(times(history, Counted::WarmRequest) <= u64::MAX);
        assert(times(history, Counted::QueueFullRejection) <= u64::MAX);
        assert(times(history, Counted::QueueTimeout) <= u64::MAX);
        assert(times(history, Counted::WakeAttempt) <= u64::MAX);
        assert(times(history, Counted::WakeFailure) <= u64::MAX);
        assert(times(history, Counted::TunnelDrop) <= u64::MAX);
        assert(times(history, Counted::EmbeddingsDegraded) <= u64::MAX);
        assert(times(history, Counted::ForwardingError) <= u64::MAX);
        assert(times(history, Counted::ChatRequest) <= u64::MAX);
        assert(times(history, Counted::EmbeddingsRequest) <= u64::MAX);
    }
}

/// In what order things are counted does not matter.
pub proof fn order_of_counting_does_not_matter(one: Seq<Counted>, other: Seq<Counted>)
    requires
        forall|what: Counted| #[trigger] times(one, what) <= u64::MAX,
        forall|what: Counted| #[trigger] times(one, what) == times(other, what),
    ensures
        after_counts(one) == after_counts(other),
{
    assert forall|what: Counted| #[trigger] times(other, what) <= u64::MAX by {
        assert(times(one, what) == times(other, what));
    }
    counters_count_their_events(one);
    counters_count_their_events(other);
    assert(times(one, Counted::ColdStart) == times(other, Counted::ColdStart));
    assert(times(one, Counted::WarmRequest) == times(other, Counted::WarmRequest));
    assert(times(one, Counted::QueueFullRejection) == times(other, Counted::QueueFullRejection));
    assert(times(one, Counted::QueueTimeout) == times(other, Counted::QueueTimeout));
    assert(times(one, Counted::WakeAttempt) == times(other, Counted::WakeAttempt));
    assert(times(one, Counted::WakeFailure) == times(other, Counted::WakeFailure));
    assert(times(one, Counted::TunnelDrop) == times(other, Counted::TunnelDrop));
    assert(times(one, Counted::EmbeddingsDegraded) == times(other, Counted::EmbeddingsDegraded));
    assert(times(one, Counted::ForwardingError) == times(other, Counted::ForwardingError));
    assert(times(one, Counted::ChatRequest) == times(other, Counted::ChatRequest));
    assert(times(one, Counted::EmbeddingsRequest) == times(other, Counted::EmbeddingsRequest));
}

/// A chat request adds one to the chat requests and leaves the requests for embeddings alone,
/// whatever was counted before and in whatever order.
pub proof fn chat_request_is_counted_as_one(history: Seq<Counted>)
    requires
        forall|what: Counted| #[trigger] times(history, what) < u64::MAX,
    ensures
        ({
            let m = after_counts(history.push(Counted::ChatRequest));
            &&& m.chat_requests == times(history, Counted::ChatRequest) + 1
            &&& m.embeddings_requests == times(history, Counted::EmbeddingsRequest)
        }),
{
    let longer = history.push(Counted::ChatRequest);
    assert(longer.drop_last() =~= history);
    assert forall|what: Counted| #[trigger] times(longer, what) <= u64::MAX by {
        assert(times(history, what) < u64::MAX);
    }
    counters_count_their_events(longer);
}

/// Two snapshots with nothing counted between them are equal.
pub proof fn snapshots_agree(m: Metrics, first: MetricsSnapshot, second: MetricsSnapshot)
    requires
        snapshot_of(first) == m,
        snapshot_of(second) == m,
    ensures
        first == second,
{
}

proof fn lemma_counter_names_differ()
    ensures
        "cold_starts"@ != "warm_requests"@,
        "cold_starts"@ != "queue_full_rejections"@,
        "cold_starts"@ != "queue_timeouts"@,
        "cold_starts"@ != "wake_attempts"@,
        "cold_starts"@ != "wake_failures"@,
        "cold_starts"@ != "tunnel_drops"@,
        "cold_starts"@ != "embeddings_degraded"@,
        "cold_starts"@ != "forwarding_errors"@,
        "cold_starts"@ != "chat_requests"@,
        "cold_starts"@ != "embeddings_requests"@,
        "warm_requests"@ != "queue_full_rejections"@,
        "warm_requests"@ != "queue_timeouts"@,
        "warm_requests"@ != "wake_attempts"@,
        "warm_requests"@ != "wake_failures"@,
        "warm_requests"@ != "tunnel_drops"@,
        "warm_requests"@ != "embeddings_degraded"@,
        "warm_requests"@ != "forwarding_errors"@,
        "warm_requests"@ != "chat_requests"@,
        "warm_requests"@ != "embeddings_requests"@,
        "queue_full_rejections"@ != "queue_timeouts"@,
        "queue_full_rejections"@ != "wake_attempts"@,
        "queue_full_rejections"@ != "wake_failures"@,
        "queue_full_rejections"@ != "tunnel_drops"@,
        "queue_full_rejections"@ != "embeddings_degraded"@,
        "queue_full_rejections"@ != "forwarding_errors"@,
        "queue_full_rejections"@ != "chat_requests"@,
        "queue_full_rejections"@ != "embeddings_requests"@,
        "queue_timeouts"@ != "wake_attempts"@,
        "queue_timeouts"@ != "wake_failures"@,
        "queue_timeouts"@ != "tunnel_drops"@,
        "queue_timeouts"@ != "embeddings_degraded"@,
        "queue_timeouts"@ != "forwarding_errors"@,
        "queue_timeouts"@ != "chat_requests"@,
        "queue_timeouts"@ != "embeddings_requests"@,
        "wake_attempts"@ != "wake_failures"@,
        "wake_attempts"@ != "tunnel_drops"@,
        "wake_attempts"@ != "embeddings_degraded"@,
        "wake_attempts"@ != "forwarding_errors"@,
        "wake_attempts"@ != "chat_requests"@,
        "wake_attempts"@ != "embeddings_requests"@,
        "wake_failures"@ != "tunnel_drops"@,
        "wake_failures"@ != "embeddings_degraded"@,
        "wake_failures"@ != "forwarding_errors"@,
        "wake_failures"@ != "chat_requests"@,
        "wake_failures"@ != "embeddings_requests"@,
        "tunnel_drops"@ != "embeddings_degraded"@,
        "tunnel_drops"@ != "forwarding_errors"@,
        "tunnel_drops"@ != "chat_requests"@,
        "tunnel_drops"@ != "embeddings_requests"@,
        "embeddings_degraded"@ != "forwarding_errors"@,
        "embeddings_degraded"@ != "chat_requests"@,
        "embeddings_degraded"@ != "embeddings_requests"@,
        "forwarding_errors"@ != "chat_requests"@,
        "forwarding_errors"@ != "embeddings_requests"@,
        "chat_requests"@ != "embeddings_requests"@,
{
    reveal_strlit("cold_starts");
    reveal_strlit("warm_requests");
    reveal_strlit("queue_full_rejections");
    reveal_strlit("queue_timeouts");
    reveal_strlit("wake_attempts");
    reveal_strlit("wake_failures");
    reveal_strlit("tunnel_drops");
    reveal_strlit("embeddings_degraded");
    reveal_strlit("forwarding_errors");
    reveal_strlit("chat_requests");
    reveal_strlit("embeddings_requests");
    assert("warm_requests"@[2] != "wake_attempts"@[2]);
    assert("warm_requests"@[2] != "wake_failures"@[2]);
    assert("warm_requests"@[0] != "chat_requests"@[0]);
    assert("wake_attempts"@[5] != "wake_failures"@[5]);
    assert("wake_attempts"@[0] != "chat_requests"@[0]);
    assert("wake_failures"@[0] != "chat_requests"@[0]);
    assert("embeddings_degraded"@[11] != "embeddings_requests"@[11]);
    assert("cold_starts"@.len() == 11);
    assert("warm_requests"@.len() == 13);
    assert("queue_full_rejections"@.len() == 21);
    assert("queue_timeouts"@.len() == 14);
    assert("wake_attempts"@.len() == 13);
    assert("wake_failures"@.len() == 13);
    assert("tunnel_drops"@.len() == 12);
    assert("embeddings_degraded"@.len() == 19);
    assert("forwarding_errors"@.len() == 17);
    assert("chat_requests"@.len() == 13);
    assert("embeddings_requests"@.len() == 19);
}

/// The document of the counters gives each of them, and nothing else, under its own name, and a
/// snapshot has each of them as it is.
pub proof fn counters_stand_under_their_names(m: &Metrics, s: MetricsSnapshot, document: Value)
    requires
        call_ensures(Metrics::snapshot, (m,), s),
        call_ensures(MetricsSnapshot::to_json, (&s,), document),
    ensures
        json_tree(document) matches JsonTree::Object(fields) && {
            &&& fields["cold_starts"@] == JsonTree::Number(decimal(m.cold_starts as nat))
            &&& fields["warm_requests"@] == JsonTree::Number(decimal(m.warm_requests as nat))
            &&& fields["queue_full_rejections"@] == JsonTree::Number(decimal(m.queue_full_rejections as nat))
            &&& fields["queue_timeouts"@] == JsonTree::Number(decimal(m.queue_timeouts as nat))
            &&& fields["wake_attempts"@] == JsonTree::Number(decimal(m.wake_attempts as nat))
            &&& fields["wake_failures"@] == JsonTree::Number(decimal(m.wake_failures as nat))
            &&& fields["tunnel_drops"@] == JsonTree::Number(decimal(m.tunnel_drops as nat))
            &&& fields["embeddings_degraded"@] == JsonTree::Number(decimal(m.embeddings_degraded as nat))
            &&& fields["forwarding_errors"@] == JsonTree::Number(decimal(m.forwarding_errors as nat))
            &&& fields["chat_requests"@] == JsonTree::Number(decimal(m.chat_requests as nat))
            &&& fields["embeddings_requests"@] == JsonTree::Number(decimal(m.embeddings_requests as nat))
            &&& fields.dom() == set![
                "cold_starts"@,
                "warm_requests"@,
                "queue_full_rejections"@,
                "queue_timeouts"@,
                "wake_attempts"@,
                "wake_failures"@,
                "tunnel_drops"@,
                "embeddings_degraded"@,
                "forwarding_errors"@,
                "chat_requests"@,
                "embeddings_requests"@,
            ]
        },
        s.cold_starts == m.cold_starts,
        s.warm_requests == m.warm_requests,
        s.queue_full_rejections == m.queue_full_rejections,
        s.queue_timeouts == m.queue_timeouts,
        s.wake_attempts == m.wake_attempts,
        s.wake_failures == m.wake_failures,
        s.tunnel_drops == m.tunnel_drops,
        s.embeddings_degraded == m.embeddings_degraded,
        s.forwarding_errors == m.forwarding_errors,
        s.chat_requests == m.chat_requests,
        s.embeddings_requests == m.embeddings_requests,
{
    lemma_counter_names_differ();
    let fields = json_tree(document)->Object_0;
    assert(fields.dom() =~= set![
        "cold_starts"@,
        "warm_requests"@,
        "queue_full_rejections"@,
        "queue_timeouts"@,
        "wake_attempts"@,
        "wake_failures"@,
        "tunnel_drops"@,
        "embeddings_degraded"@,
        "forwarding_errors"@,
        "chat_requests"@,
        "embeddings_requests"@,
    ]);
}

/// Whether a counter has counted once: it is one more, or zero where it was full.
pub open spec fn one_more(before: u64, after: u64) -> bool {
    &&& before < u64::MAX ==> after == before + 1
    &&& before == u64::MAX ==> after == 0
}

/// Counting something counts it once and counts nothing else.
pub proof fn each_counts_its_own(
    cold_starts: &mut Metrics,
    warm_requests: &mut Metrics,
    queue_full_rejections: &mut Metrics,
    queue_timeouts: &mut Metrics,
    wake_attempts: &mut Metrics,
    wake_failures: &mut Metrics,
    tunnel_drops: &mut Metrics,
    embeddings_degraded: &mut Metrics,
    forwarding_errors: &mut Metrics,
    chat_requests: &mut Metrics,
    embeddings_requests: &mut Metrics,
)
    requires
        call_ensures(Metrics::inc_cold_starts, (cold_starts,), ()),
        call_ensures(Metrics::inc_warm_requests, (warm_requests,), ()),
        call_ensures(Metrics::inc_queue_full, (queue_full_rejections,), ()),
        call_ensures(Metrics::inc_queue_timeouts, (queue_timeouts,), ()),
        call_ensures(Metrics::inc_wake_attempts, (wake_attempts,), ()),
        call_ensures(Metrics::inc_wake_failures, (wake_failures,), ()),
        call_ensures(Metrics::inc_tunnel_drops, (tunnel_drops,), ()),
        call_ensures(Metrics::inc_embeddings_degraded, (embeddings_degraded,), ()),
        call_ensures(Metrics::inc_forwarding_errors, (forwarding_errors,), ()),
        call_ensures(Metrics::inc_chat_requests, (chat_requests,), ()),
        call_ensures(Metrics::inc_embeddings_requests, (embeddings_requests,), ()),
    ensures
        one_more(old(cold_starts).cold_starts, final(cold_starts).cold_starts),
        *final(cold_starts) == (Metrics { cold_starts: final(cold_starts).cold_starts, ..*old(cold_starts) }),
        one_more(old(warm_requests).warm_requests, final(warm_requests).warm_requests),
        *final(warm_requests) == (Metrics { warm_requests: final(warm_requests).warm_requests, ..*old(warm_requests) }),
        one_more(old(queue_full_rejections).queue_full_rejections, final(queue_full_rejections).queue_full_rejections),
        *final(queue_full_rejections) == (Metrics { queue_full_rejections: final(queue_full_rejections).queue_full_rejections, ..*old(queue_full_rejections) }),
        one_more(old(queue_timeouts).queue_timeouts, final(queue_timeouts).queue_timeouts),
        *final(queue_timeouts) == (Metrics { queue_timeouts: final(queue_timeouts).queue_timeouts, ..*old(queue_timeouts) }),
        one_more(old(wake_attempts).wake_attempts, final(wake_attempts).wake_attempts),
        *final(wake_attempts) == (Metrics { wake_attempts: final(wake_attempts).wake_attempts, ..*old(wake_attempts) }),
        one_more(old(wake_failures).wake_failures, final(wake_failures).wake_failures),
        *final(wake_failures) == (Metrics { wake_failures: final(wake_failures).wake_failures, ..*old(wake_failures) }),
        one_more(old(tunnel_drops).tunnel_drops, final(tunnel_drops).tunnel_drops),
        *final(tunnel_drops) == (Metrics { tunnel_drops: final(tunnel_drops).tunnel_drops, ..*old(tunnel_drops) }),
        one_more(old(embeddings_degraded).embeddings_degraded, final(embeddings_degraded).embeddings_degraded),
        *final(embeddings_degraded) == (Metrics { embeddings_degraded: final(embeddings_degraded).embeddings_degraded, ..*old(embeddings_degraded) }),
        one_more(old(forwarding_errors).forwarding_errors, final(forwarding_errors).forwarding_errors),
        *final(forwarding_errors) == (Metrics { forwarding_errors: final(forwarding_errors).forwarding_errors, ..*old(forwarding_errors) }),
        one_more(old(chat_requests).chat_requests, final(chat_requests).chat_requests),
        *final(chat_requests) == (Metrics { chat_requests: final(chat_requests).chat_requests, ..*old(chat_requests) }),
        one_more(old(embeddings_requests).embeddings_requests, final(embeddings_requests).embeddings_requests),
        *final(embeddings_requests) == (Metrics { embeddings_requests: final(embeddings_requests).embeddings_requests, ..*old(embeddings_requests) }),
{
}

} // verus!
