//! Admission of requests to a warm backend: so many run, so many more wait, and the rest is turned
//! away.

use std::sync::Arc;
use std::time::Duration;

use tokio::sync::{OwnedSemaphorePermit, Semaphore, TryAcquireError};
use vstd::prelude::*;

use crate::config::WarmExecutionConfig;

verus! {

/// `tokio::sync::Semaphore`, the slots in which requests run.
#[verifier::external_type_specification]
#[verifier::external_body]
pub struct ExSemaphore(tokio::sync::Semaphore);

/// `tokio::sync::OwnedSemaphorePermit`, a slot that was taken. It is free again when it is dropped.
#[verifier::external_type_specification]
#[verifier::external_body]
pub struct ExOwnedSemaphorePermit(tokio::sync::OwnedSemaphorePermit);

/// The most slots that a semaphore can have: `Semaphore::MAX_PERMITS`.
pub open spec fn max_permits() -> nat {
    (usize::MAX / 8) as nat
}

/// The number of slots that a semaphore was made with.
pub uninterp spec fn slots(semaphore: Semaphore) -> nat;

/// The semaphore that a slot was taken from.
pub uninterp spec fn taken_from(permit: OwnedSemaphorePermit) -> Semaphore;

/// `Semaphore::new` makes a semaphore with so many slots, all of them free; it panics above
/// `Semaphore::MAX_PERMITS`. How many are free later is known to the semaphore only.
pub assume_specification[ Semaphore::new ](permits: usize) -> (r: Semaphore)
    requires
        permits <= max_permits(),
    ensures
        slots(r) == permits,
;

/// What a semaphore answers to a request for a slot.
#[derive(Debug)]
pub enum SlotOffer {
    Granted(OwnedSemaphorePermit),
    NoPermits,
    Closed,
}

/// `Semaphore::try_acquire_owned` takes a slot of this semaphore if one is free now. Which answer
/// comes depends on the tasks that hold slots, so no more is said of it.
#[verifier::external_body]
pub(crate) fn try_acquire(semaphore: &Arc<Semaphore>) -> (r: SlotOffer)
    ensures
        r matches SlotOffer::Granted(permit) ==> taken_from(permit) == **semaphore,
{
    match semaphore.clone().try_acquire_owned() {
        Ok(permit) => SlotOffer::Granted(permit),
        Err(TryAcquireError::NoPermits) => SlotOffer::NoPermits,
        Err(TryAcquireError::Closed) => SlotOffer::Closed,
    }
}

/// Whether the semaphore, asked for a slot, may have answered so.
pub closed spec fn answered(semaphore: Arc<Semaphore>, offer: SlotOffer) -> bool {
    call_ensures(try_acquire, (&semaphore,), offer)
}

/// Asks the semaphore for a slot.
pub(crate) fn ask_for_slot(semaphore: &Arc<Semaphore>) -> (r: SlotOffer)
    ensures
        answered(*semaphore, r),
        r matches SlotOffer::Granted(permit) ==> taken_from(permit) == **semaphore,
{
    try_acquire(semaphore)
}

/// Whether the request in whose name something is done has been given up.
#[derive(Debug)]
pub struct RequestCancellation {
    pub cancelled: bool,
}

impl RequestCancellation {
    pub fn new() -> (r: RequestCancellation)
        ensures
            !r.cancelled,
    {
        RequestCancellation { cancelled: false }
    }

    /// Gives the request up, and tells whether those who wait for that are to be notified: the
    /// first time only.
    pub fn cancel(&mut self) -> (r: bool)
        ensures
            final(self).cancelled,
            r == !old(self).cancelled,
    {
        let first = !self.cancelled;
        self.cancelled = true;
        first
    }

    pub fn is_cancelled(&self) -> (r: bool)
        ensures
            r == self.cancelled,
    {
        self.cancelled
    }
}

impl Default for RequestCancellation {
    fn default() -> (r: RequestCancellation)
        ensures
            !r.cancelled,
    {
        RequestCancellation::new()
    }
}

/// A guard that gives a request up when it is dropped, unless it was disarmed.
#[derive(Debug)]
pub struct CancelOnDrop {
    pub armed: bool,
}

impl CancelOnDrop {
    pub fn new() -> (r: CancelOnDrop)
        ensures
            r.armed,
    {
        CancelOnDrop { armed: true }
    }

    /// The request was served.
    pub fn disarm(&mut self)
        ensures
            !final(self).armed,
    {
        self.armed = false;
    }

    /// The guard is dropped. Tells whether those who wait for the end of the request are to be
    /// notified.
    pub fn dropped(&self, cancellation: &mut RequestCancellation) -> (r: bool)
        ensures
            final(cancellation).cancelled == (old(cancellation).cancelled || self.armed),
            r == (self.armed && !old(cancellation).cancelled),
    {
        if self.armed {
            cancellation.cancel()
        } else {
            false
        }
    }
}

/// Why a request was not run.
#[derive(Clone, Copy, Debug, PartialEq, Eq, Structural)]
pub enum WarmExecutionError {
    QueueFull,
    QueueTimeout,
}

/// What a client is told of a request that was not run.
pub open spec fn refusal_message(error: WarmExecutionError) -> Seq<char> {
    match error {
        WarmExecutionError::QueueFull => "warm execution queue is full"@,
        WarmExecutionError::QueueTimeout => "request did not start before the warm queue timeout"@,
    }
}

impl WarmExecutionError {
    pub fn message(&self) -> (r: &'static str)
        ensures
            r@ == refusal_message(*self),
    {
        match self {
            WarmExecutionError::QueueFull => "warm execution queue is full",
            WarmExecutionError::QueueTimeout => "request did not start before the warm queue timeout",
        }
    }
}

/// How many requests wait for a slot.
#[derive(Debug)]
pub struct QueueState {
    pub queued: usize,
}

/// A place in the queue.
#[derive(Debug)]
pub struct QueueTicket {
    pub active: bool,
}

/// The length of the queue after a ticket is given back.
pub open spec fn queue_after_release(queued: usize, active: bool) -> usize {
    if active && queued > 0 {
        (queued - 1) as usize
    } else {
        queued
    }
}

impl QueueTicket {
    /// Takes a place in the queue, unless so many are taken already.
    pub fn reserve(queue: &mut QueueState, max_queued_requests: usize) -> (r: Result<
        QueueTicket,
        WarmExecutionError,
    >)
        ensures
            match r {
                Ok(ticket) => {
                    &&& old(queue).queued < max_queued_requests
                    &&& final(queue).queued == old(queue).queued + 1
                    &&& ticket.active
                },
                Err(error) => {
                    &&& old(queue).queued >= max_queued_requests
                    &&& final(queue).queued == old(queue).queued
                    &&& error == WarmExecutionError::QueueFull
                },
            },
    {
        if queue.queued >= max_queued_requests {
            return Err(WarmExecutionError::QueueFull);
        }
        queue.queued = queue.queued + 1;
        Ok(QueueTicket { active: true })
    }

    /// Gives the place back, once.
    pub fn release(&mut self, queue: &mut QueueState)
        ensures
            final(queue).queued == queue_after_release(old(queue).queued, old(self).active),
            !final(self).active,
    {
        if !self.active {
            return;
        }
        queue.queued = queue.queued.saturating_sub(1);
        self.active = false;
    }
}

/// What becomes of a request.
#[derive(Debug)]
pub enum Admission {
    /// It runs; the slot is free again when the permit is dropped.
    Run(OwnedSemaphorePermit),
    /// It waits for a slot; then `WarmExecutionScheduler::queue_left`.
    Queued(QueueTicket),
    Rejected(WarmExecutionError),
    /// The semaphore was closed, which nothing here does.
    Broken,
}

/// How the wait for a slot ended.
#[derive(Debug)]
pub enum QueueOutcome {
    Granted(OwnedSemaphorePermit),
    Closed,
    TimedOut,
}

/// Admission of requests to a warm backend.
pub struct WarmExecutionScheduler {
    pub semaphore: Arc<Semaphore>,
    pub queue: QueueState,
    pub config: WarmExecutionConfig,
}

/// What becomes of a request when `queued` requests wait, at most `max` may, and the semaphore has
/// answered: the length of the queue then, and the admission.
pub open spec fn admitted(queued: usize, max: usize, offer: SlotOffer) -> (usize, Admission) {
    match offer {
        SlotOffer::Granted(permit) => (queued, Admission::Run(permit)),
        SlotOffer::Closed => (queued, Admission::Broken),
        SlotOffer::NoPermits => if queued >= max {
            (queued, Admission::Rejected(WarmExecutionError::QueueFull))
        } else {
            ((queued + 1) as usize, Admission::Queued(QueueTicket { active: true }))
        },
    }
}

/// What becomes of a request that waited.
pub open spec fn after_queue(outcome: QueueOutcome) -> Admission {
    match outcome {
        QueueOutcome::Granted(permit) => Admission::Run(permit),
        QueueOutcome::Closed => Admission::Broken,
        QueueOutcome::TimedOut => Admission::Rejected(WarmExecutionError::QueueTimeout),
    }
}

impl WarmExecutionScheduler {
    pub fn new(config: WarmExecutionConfig) -> (r: WarmExecutionScheduler)
        requires
            config.max_active_requests <= max_permits(),
        ensures
            r.queue.queued == 0,
            r.config == config,
            slots(*r.semaphore) == config.max_active_requests,
    {
        WarmExecutionScheduler {
            semaphore: Arc::new(Semaphore::new(config.max_active_requests)),
            queue: QueueState { queued: 0 },
            config,
        }
    }

    /// What becomes of a request, by the answer of the semaphore.
    pub fn place(&mut self, offer: SlotOffer) -> (r: Admission)
        ensures
            (final(self).queue.queued, r) == admitted(
                old(self).queue.queued,
                old(self).config.max_queued_requests,
                offer,
            ),
            final(self).config == old(self).config,
            final(self).semaphore == old(self).semaphore,
    {
        match offer {
            SlotOffer::Granted(permit) => Admission::Run(permit),
            SlotOffer::Closed => Admission::Broken,
            SlotOffer::NoPermits => match QueueTicket::reserve(
                &mut self.queue,
                self.config.max_queued_requests,
            ) {
                Ok(ticket) => Admission::Queued(ticket),
                Err(error) => Admission::Rejected(error),
            },
        }
    }

    /// A request to run something: it runs, waits or is turned away.
    pub fn begin(&mut self) -> (r: Admission)
        ensures
            exists|offer: SlotOffer| #[trigger]
                answered(old(self).semaphore, offer) && (final(self).queue.queued, r) == admitted(
                    old(self).queue.queued,
                    old(self).config.max_queued_requests,
                    offer,
                ),
            r matches Admission::Run(permit) ==> taken_from(permit) == *old(self).semaphore,
            final(self).config == old(self).config,
            final(self).semaphore == old(self).semaphore,
    {
        let offer = ask_for_slot(&self.semaphore);
        self.place(offer)
    }

    /// How long a request may wait for a slot; then its wait ends with `QueueOutcome::TimedOut`.
    pub fn queue_wait(&self) -> (r: Duration)
        ensures
            r == self.config.queue_timeout,
    {
        self.config.queue_timeout
    }

    /// The wait of a request has ended.
    pub fn queue_left(&mut self, ticket: QueueTicket, outcome: QueueOutcome) -> (r: Admission)
        ensures
            r == after_queue(outcome),
            final(self).queue.queued == queue_after_release(old(self).queue.queued, ticket.active),
            final(self).config == old(self).config,
            final(self).semaphore == old(self).semaphore,
    {
        let mut ticket = ticket;
        ticket.release(&mut self.queue);
        match outcome {
            QueueOutcome::Granted(permit) => Admission::Run(permit),
            QueueOutcome::Closed => Admission::Broken,
            QueueOutcome::TimedOut => Admission::Rejected(WarmExecutionError::QueueTimeout),
        }
    }
}

/// Runs `operation` for a request that has a slot, and gives its output with the slot, to be kept as
/// long as the output is worked on. For a request that was turned away, `operation` is dropped. What
/// can be called once only is called at most once.
pub fn serve<T, F: FnOnce() -> T>(
    slot: Result<OwnedSemaphorePermit, WarmExecutionError>,
    operation: F,
) -> (r: Result<(OwnedSemaphorePermit, T), WarmExecutionError>)
    requires
        call_requires(operation, ()),
    ensures
        match (slot, r) {
            (Ok(permit), Ok((kept, output))) => kept == permit && call_ensures(
                operation,
                (),
                output,
            ),
            (Err(error), Err(told)) => told == error,
            _ => false,
        },
{
    match slot {
        Ok(permit) => {
            let output = operation();
            Ok((permit, output))
        },
        Err(error) => Err(error),
    }
}

/// The requests that a scheduler knows of, each under a number of its own: those that have come at
/// all, those that hold a place in the queue, and those that hold a slot.
#[verifier::ext_equal]
pub struct Requests {
    pub queued: usize,
    pub known: Set<nat>,
    pub waiting: Set<nat>,
    pub running: Set<nat>,
}

/// What can happen to the requests of a scheduler.
pub enum SchedulerEvent {
    /// A request comes, and the semaphore answers.
    Begun { id: nat, offer: SlotOffer },
    /// The wait of a request has ended.
    QueueLeft { id: nat, outcome: QueueOutcome },
    /// A request that waits is given up.
    GivenUp { id: nat },
    /// What a request ran has finished, or was given up: its slot is free again.
    Finished { id: nat },
}

/// The request that an event is about.
pub open spec fn subject(event: SchedulerEvent) -> nat {
    match event {
        SchedulerEvent::Begun { id, .. } => id,
        SchedulerEvent::QueueLeft { id, .. } => id,
        SchedulerEvent::GivenUp { id } => id,
        SchedulerEvent::Finished { id } => id,
    }
}

/// What the request that an event is about is told, if it is told anything.
pub open spec fn told(
    limits: WarmExecutionConfig,
    requests: Requests,
    event: SchedulerEvent,
) -> Option<Admission> {
    match event {
        SchedulerEvent::Begun { offer, .. } => Some(
            admitted(requests.queued, limits.max_queued_requests, offer).1,
        ),
        SchedulerEvent::QueueLeft { outcome, .. } => Some(after_queue(outcome)),
        _ => None,
    }
}

/// The requests after an event.
pub open spec fn requests_after(
    limits: WarmExecutionConfig,
    requests: Requests,
    event: SchedulerEvent,
) -> Requests {
    let id = subject(event);
    match event {
        SchedulerEvent::Begun { offer, .. } => {
            let (queued, admission) = admitted(
                requests.queued,
                limits.max_queued_requests,
                offer,
            );
            Requests {
                queued,
                known: requests.known.insert(id),
                waiting: if admission is Queued {
                    requests.waiting.insert(id)
                } else {
                    requests.waiting
                },
                running: if admission is Run {
                    requests.running.insert(id)
                } else {
                    requests.running
                },
            }
        },
        SchedulerEvent::QueueLeft { outcome, .. } => Requests {
            queued: queue_after_release(requests.queued, true),
            waiting: requests.waiting.remove(id),
            running: if after_queue(outcome) is Run {
                requests.running.insert(id)
            } else {
                requests.running
            },
            ..requests
        },
        SchedulerEvent::GivenUp { .. } => Requests {
            queued: queue_after_release(requests.queued, true),
            waiting: requests.waiting.remove(id),
            ..requests
        },
        SchedulerEvent::Finished { .. } => Requests {
            running: requests.running.remove(id),
            ..requests
        },
    }
}

/// Whether an event can happen: a request comes once, only one that waits stops waiting, only one
/// that runs finishes, and the semaphore grants a slot only while one is free.
pub open spec fn can_happen(
    limits: WarmExecutionConfig,
    requests: Requests,
    event: SchedulerEvent,
) -> bool {
    let id = subject(event);
    let free = requests.running.len() < limits.max_active_requests;
    match event {
        SchedulerEvent::Begun { offer, .. } => {
            &&& !requests.known.contains(id)
            &&& offer is Granted ==> free
        },
        SchedulerEvent::QueueLeft { outcome, .. } => {
            &&& requests.waiting.contains(id)
            &&& outcome is Granted ==> free
        },
        SchedulerEvent::GivenUp { .. } => requests.waiting.contains(id),
        SchedulerEvent::Finished { .. } => requests.running.contains(id),
    }
}

/// The requests of a scheduler after a history of events.
pub open spec fn requests_after_all(
    limits: WarmExecutionConfig,
    events: Seq<SchedulerEvent>,
) -> Requests
    decreases events.len(),
{
    if events.len() == 0 {
        Requests { queued: 0, known: Set::empty(), waiting: Set::empty(), running: Set::empty() }
    } else {
        requests_after(limits, requests_after_all(limits, events.drop_last()), events.last())
    }
}

/// Whether every event of a history could happen when it did.
pub open spec fn history(limits: WarmExecutionConfig, events: Seq<SchedulerEvent>) -> bool
    decreases events.len(),
{
    events.len() > 0 ==> {
        &&& history(limits, events.drop_last())
        &&& can_happen(limits, requests_after_all(limits, events.drop_last()), events.last())
    }
}

/// Whatever happens, at most so many requests run and at most so many wait as the limits allow, none
/// does both, the queue is as long as there are requests that wait, and only requests that have come
/// run or wait.
pub proof fn limits_are_kept(limits: WarmExecutionConfig, events: Seq<SchedulerEvent>)
    requires
        history(limits, events),
    ensures
        ({
            let requests = requests_after_all(limits, events);
            &&& requests.running.finite()
            &&& requests.waiting.finite()
            &&& requests.running.len() <= limits.max_active_requests
            &&& requests.waiting.len() <= limits.max_queued_requests
            &&& requests.queued == requests.waiting.len()
            &&& requests.waiting.disjoint(requests.running)
            &&& requests.waiting.subset_of(requests.known)
            &&& requests.running.subset_of(requests.known)
        }),
    decreases events.len(),
{
    if events.len() > 0 {
        limits_are_kept(limits, events.drop_last());
        let before = requests_after_all(limits, events.drop_last());
        if before.waiting.contains(subject(events.last())) {
            assert(before.waiting.len() > 0);
        }
    }
}

/// A request is turned away as one too many only if it was offered no slot and the queue was at its
/// limit, and as one that waited too long only if it held a place in the queue and its time ran out.
/// A request that is turned away does not run, and holds neither a slot nor a place; one that is
/// told to run or to wait holds just that.
pub proof fn rejected_for_a_reason(limits: WarmExecutionConfig, events: Seq<SchedulerEvent>)
    requires
        history(limits, events),
        events.len() > 0,
    ensures
        ({
            let event = events.last();
            let id = subject(event);
            let before = requests_after_all(limits, events.drop_last());
            let after = requests_after_all(limits, events);
            let answer = told(limits, before, event);
            &&& answer == Some(Admission::Rejected(WarmExecutionError::QueueFull)) ==> {
                &&& event matches SchedulerEvent::Begun { offer, .. }
                &&& offer is NoPermits
                &&& before.waiting.len() == limits.max_queued_requests
            }
            &&& answer == Some(Admission::Rejected(WarmExecutionError::QueueTimeout)) ==> {
                &&& event matches SchedulerEvent::QueueLeft { outcome, .. }
                &&& outcome is TimedOut
                &&& before.waiting.contains(id)
            }
            &&& (answer matches Some(admission) && admission is Rejected) ==> {
                &&& !before.running.contains(id)
                &&& !after.running.contains(id)
                &&& !after.waiting.contains(id)
            }
            &&& (answer matches Some(admission) && admission is Run) ==> {
                &&& after.running.contains(id)
                &&& !after.waiting.contains(id)
            }
            &&& (answer matches Some(admission) && admission is Queued) ==> {
                &&& after.waiting.contains(id)
                &&& !after.running.contains(id)
            }
        }),
{
    limits_are_kept(limits, events.drop_last());
    limits_are_kept(limits, events);
}

/// A request that finishes frees its slot, and one that stops waiting frees its place; no other
/// request loses or gains anything by that.
pub proof fn ended_requests_free_what_they_held(
    limits: WarmExecutionConfig,
    events: Seq<SchedulerEvent>,
)
    requires
        history(limits, events),
        events.len() > 0,
    ensures
        ({
            let event = events.last();
            let id = subject(event);
            let before = requests_after_all(limits, events.drop_last());
            let after = requests_after_all(limits, events);
            &&& event is Finished ==> {
                &&& after.running == before.running.remove(id)
                &&& after.running.len() + 1 == before.running.len()
                &&& after.waiting == before.waiting
            }
            &&& event is GivenUp || event is QueueLeft ==> {
                &&& after.waiting == before.waiting.remove(id)
                &&& after.queued + 1 == before.queued
            }
            &&& event is GivenUp ==> after.running == before.running
        }),
{
    limits_are_kept(limits, events.drop_last());
    limits_are_kept(limits, events);
    let before = requests_after_all(limits, events.drop_last());
    if before.waiting.contains(subject(events.last())) {
        assert(before.waiting.len() > 0);
    }
}

/// What a request comes to, after it waited or at once.
pub enum Fate {
    /// It is told to run.
    Served,
    /// It is turned away.
    Refused,
    /// It is given up while it waits.
    Abandoned,
    /// The semaphore was closed.
    Broken,
}

/// What the request that an event is about comes to by it, if it comes to anything.
pub open spec fn fate(
    limits: WarmExecutionConfig,
    requests: Requests,
    event: SchedulerEvent,
) -> Option<Fate> {
    match told(limits, requests, event) {
        Some(Admission::Run(_)) => Some(Fate::Served),
        Some(Admission::Rejected(_)) => Some(Fate::Refused),
        Some(Admission::Broken) => Some(Fate::Broken),
        Some(Admission::Queued(_)) => None,
        None => if event is GivenUp {
            Some(Fate::Abandoned)
        } else {
            None
        },
    }
}

/// How often in a history a request came to this.
pub open spec fn times(
    limits: WarmExecutionConfig,
    events: Seq<SchedulerEvent>,
    id: nat,
    wanted: Fate,
) -> nat
    decreases events.len(),
{
    if events.len() == 0 {
        0
    } else {
        let before = requests_after_all(limits, events.drop_last());
        let event = events.last();
        times(limits, events.drop_last(), id, wanted) + if subject(event) == id && fate(
            limits,
            before,
            event,
        ) == Some(wanted) {
            1nat
        } else {
            0nat
        }
    }
}

/// How often in a history what a request ran has finished.
pub open spec fn endings(events: Seq<SchedulerEvent>, id: nat) -> nat
    decreases events.len(),
{
    if events.len() == 0 {
        0
    } else {
        endings(events.drop_last(), id) + if events.last() == (SchedulerEvent::Finished { id }) {
            1nat
        } else {
            0nat
        }
    }
}

/// A request comes to one thing, once: it is told to run, turned away, given up or told that the
/// semaphore is closed, unless it still waits. So it is told to run at most once, and never if it is
/// turned away, before or after. It holds its slot from when it is told to run until it finishes,
/// which it does at most once.
pub proof fn served_once_or_not_at_all(
    limits: WarmExecutionConfig,
    events: Seq<SchedulerEvent>,
    id: nat,
)
    requires
        history(limits, events),
    ensures
        ({
            let requests = requests_after_all(limits, events);
            let served = times(limits, events, id, Fate::Served);
            let refused = times(limits, events, id, Fate::Refused);
            let abandoned = times(limits, events, id, Fate::Abandoned);
            let broken = times(limits, events, id, Fate::Broken);
            &&& served + refused + abandoned + broken == if requests.known.contains(id)
                && !requests.waiting.contains(id) {
                1nat
            } else {
                0nat
            }
            &&& served == endings(events, id) + if requests.running.contains(id) {
                1nat
            } else {
                0nat
            }
        }),
    decreases events.len(),
{
    if events.len() > 0 {
        served_once_or_not_at_all(limits, events.drop_last(), id);
        limits_are_kept(limits, events.drop_last());
    }
}

/// With a limit of zero nothing waits: a request that gets no slot is turned away at once.
pub proof fn no_queue_without_room(offer: SlotOffer)
    ensures
        !(admitted(0, 0, offer).1 is Queued),
        offer is NoPermits ==> admitted(0, 0, offer).1 == Admission::Rejected(
            WarmExecutionError::QueueFull,
        ),
{
}

/// A request that waited leaves the queue as it found it, and giving its place back a second time
/// changes nothing.
pub proof fn waiting_is_undone(queued: usize, max: usize)
    requires
        queued < max,
    ensures
        ({
            let (longer, admission) = admitted(queued, max, SlotOffer::NoPermits);
            &&& admission is Queued
            &&& queue_after_release(longer, admission->Queued_0.active) == queued
            &&& queue_after_release(queued, false) == queued
        }),
{
}

/// A request with a slot runs in that slot; without one it waits if there is room for it, and is
/// turned away otherwise. Only a request that waits makes the queue longer, by one.
pub proof fn answer_of_the_semaphore_decides(
    s: &mut WarmExecutionScheduler,
    offer: SlotOffer,
    r: Admission,
)
    requires
        call_ensures(WarmExecutionScheduler::place, (s, offer), r),
    ensures
        final(s).config == old(s).config,
        final(s).semaphore == old(s).semaphore,
        match (offer, r) {
            (SlotOffer::Granted(permit), Admission::Run(held)) => held == permit
                && final(s).queue.queued == old(s).queue.queued,
            (SlotOffer::NoPermits, Admission::Queued(ticket)) => {
                &&& ticket.active
                &&& old(s).queue.queued < old(s).config.max_queued_requests
                &&& final(s).queue.queued == old(s).queue.queued + 1
            },
            (SlotOffer::NoPermits, Admission::Rejected(error)) => {
                &&& error is QueueFull
                &&& old(s).queue.queued >= old(s).config.max_queued_requests
                &&& final(s).queue.queued == old(s).queue.queued
            },
            (SlotOffer::Closed, Admission::Broken) => final(s).queue.queued
                == old(s).queue.queued,
            _ => false,
        },
{
}

/// A request that is begun runs in a slot of this scheduler, waits where there is room, or is turned
/// away where there is none.
pub proof fn begun_requests_are_placed(s: &mut WarmExecutionScheduler, r: Admission)
    requires
        call_ensures(WarmExecutionScheduler::begin, (s,), r),
    ensures
        final(s).config == old(s).config,
        final(s).semaphore == old(s).semaphore,
        match r {
            Admission::Run(permit) => taken_from(permit) == *old(s).semaphore
                && final(s).queue.queued == old(s).queue.queued,
            Admission::Queued(ticket) => {
                &&& ticket.active
                &&& old(s).queue.queued < old(s).config.max_queued_requests
                &&& final(s).queue.queued == old(s).queue.queued + 1
            },
            Admission::Rejected(error) => {
                &&& error is QueueFull
                &&& old(s).queue.queued >= old(s).config.max_queued_requests
                &&& final(s).queue.queued == old(s).queue.queued
            },
            Admission::Broken => final(s).queue.queued == old(s).queue.queued,
        },
{
}

/// A wait that ends with a slot ends in that slot, and one that runs out of time ends with that; the
/// place in the queue is free again either way, once.
pub proof fn wait_ends_as_it_ended(
    s: &mut WarmExecutionScheduler,
    ticket: QueueTicket,
    outcome: QueueOutcome,
    r: Admission,
)
    requires
        call_ensures(WarmExecutionScheduler::queue_left, (s, ticket, outcome), r),
    ensures
        final(s).config == old(s).config,
        final(s).semaphore == old(s).semaphore,
        ticket.active && old(s).queue.queued > 0 ==> final(s).queue.queued + 1
            == old(s).queue.queued,
        !ticket.active || old(s).queue.queued == 0 ==> final(s).queue.queued
            == old(s).queue.queued,
        match (outcome, r) {
            (QueueOutcome::Granted(permit), Admission::Run(held)) => held == permit,
            (QueueOutcome::TimedOut, Admission::Rejected(error)) => error is QueueTimeout,
            (QueueOutcome::Closed, Admission::Broken) => true,
            _ => false,
        },
{
}

/// A ticket is had only where there is room, and gives its place back once.
pub proof fn tickets_are_counted(
    queue: &mut QueueState,
    max: usize,
    r: Result<QueueTicket, WarmExecutionError>,
    ticket: &mut QueueTicket,
    left: &mut QueueState,
)
    requires
        call_ensures(QueueTicket::reserve, (queue, max), r),
        call_ensures(QueueTicket::release, (ticket, left), ()),
    ensures
        r is Ok <==> old(queue).queued < max,
        r matches Ok(new) ==> new.active && final(queue).queued == old(queue).queued + 1,
        r matches Err(error) ==> error is QueueFull && final(queue).queued == old(queue).queued,
        !final(ticket).active,
        old(ticket).active && old(left).queued > 0 ==> final(left).queued + 1 == old(left).queued,
        !old(ticket).active || old(left).queued == 0 ==> final(left).queued == old(left).queued,
{
}

/// A scheduler has as many slots as it may run requests, nobody waits in it at first, and it has them
/// wait as long as it was told.
pub proof fn scheduler_keeps_its_limits(
    config: WarmExecutionConfig,
    s: WarmExecutionScheduler,
    wait: Duration,
)
    requires
        call_ensures(WarmExecutionScheduler::new, (config,), s),
        call_ensures(WarmExecutionScheduler::queue_wait, (&s,), wait),
    ensures
        slots(*s.semaphore) == config.max_active_requests,
        s.config.max_queued_requests == config.max_queued_requests,
        s.queue.queued == 0,
        wait == config.queue_timeout,
{
}

/// A request that has been given up stays so, and those who wait for that are told once: by the first
/// to give it up, or by a guard that was dropped while the request was not served.
pub proof fn requests_are_given_up_once(
    fresh: RequestCancellation,
    c: &mut RequestCancellation,
    first: bool,
    guard: &mut CancelOnDrop,
    dropped: &CancelOnDrop,
    other: &mut RequestCancellation,
    told: bool,
    given_up: bool,
    new_guard: CancelOnDrop,
)
    requires
        call_ensures(RequestCancellation::new, (), fresh),
        call_ensures(RequestCancellation::cancel, (c,), first),
        call_ensures(RequestCancellation::is_cancelled, (&fresh,), given_up),
        call_ensures(CancelOnDrop::new, (), new_guard),
        call_ensures(CancelOnDrop::disarm, (guard,), ()),
        call_ensures(CancelOnDrop::dropped, (dropped, other), told),
    ensures
        !fresh.cancelled && !given_up,
        final(c).cancelled,
        first <==> !old(c).cancelled,
        new_guard.armed,
        !final(guard).armed,
        told <==> dropped.armed && !old(other).cancelled,
        final(other).cancelled <==> dropped.armed || old(other).cancelled,
{
}

/// A client is told why its request was not run.
pub proof fn refusals_say_why(error: &WarmExecutionError, message: &str)
    requires
        call_ensures(WarmExecutionError::message, (error,), message),
    ensures
        *error is QueueFull ==> message@ == "warm execution queue is full"@,
        *error is QueueTimeout ==> message@
            == "request did not start before the warm queue timeout"@,
{
}

} // verus!
