use std::time::Duration;

use llm_wake_proxy::config::WarmExecutionConfig;
use llm_wake_proxy::scheduler::{
    serve, Admission, CancelOnDrop, QueueOutcome, QueueState, QueueTicket, RequestCancellation,
    SlotOffer, WarmExecutionError, WarmExecutionScheduler,
};

fn test_config() -> WarmExecutionConfig {
    WarmExecutionConfig {
        max_active_requests: 1,
        max_queued_requests: 1,
        queue_timeout: Duration::from_millis(25),
    }
}

#[test]
fn queued_request_times_out_with_overload_error() {
    let mut scheduler = WarmExecutionScheduler::new(test_config());
    let active = scheduler.begin();
    assert!(matches!(active, Admission::Run(_)));

    let ticket = match scheduler.begin() {
        Admission::Queued(ticket) => ticket,
        other => panic!("expected a place in the queue, got {other:?}"),
    };
    assert_eq!(scheduler.queue.queued, 1);
    assert!(matches!(
        scheduler.queue_left(ticket, QueueOutcome::TimedOut),
        Admission::Rejected(WarmExecutionError::QueueTimeout)
    ));
    assert_eq!(scheduler.queue.queued, 0);
}

#[test]
fn queue_limit_is_shared_across_request_types() {
    let mut scheduler = WarmExecutionScheduler::new(test_config());
    let _active = scheduler.begin();
    let _queued = scheduler.begin();
    assert!(matches!(
        scheduler.begin(),
        Admission::Rejected(WarmExecutionError::QueueFull)
    ));
}

#[test]
fn aborting_queued_request_releases_queue_slot() {
    let mut scheduler = WarmExecutionScheduler::new(test_config());
    let active = scheduler.begin();
    let mut ticket = match scheduler.begin() {
        Admission::Queued(ticket) => ticket,
        other => panic!("expected a place in the queue, got {other:?}"),
    };
    ticket.release(&mut scheduler.queue);
    assert!(matches!(scheduler.begin(), Admission::Queued(_)));
    drop(active);
    assert!(matches!(scheduler.begin(), Admission::Run(_)));
}

#[test]
fn aborting_active_request_cancels_work_and_releases_permit() {
    let mut scheduler = WarmExecutionScheduler::new(WarmExecutionConfig {
        max_queued_requests: 0,
        ..test_config()
    });
    let active = scheduler.begin();
    let mut cancellation = RequestCancellation::new();
    let guard = CancelOnDrop::new();
    assert!(matches!(
        scheduler.begin(),
        Admission::Rejected(WarmExecutionError::QueueFull)
    ));

    assert!(guard.dropped(&mut cancellation));
    assert!(cancellation.is_cancelled());
    drop(active);
    assert!(matches!(scheduler.begin(), Admission::Run(_)));
}

#[test]
fn served_requests_are_not_cancelled() {
    let mut cancellation = RequestCancellation::default();
    let mut guard = CancelOnDrop::new();
    guard.disarm();
    assert!(!guard.dropped(&mut cancellation));
    assert!(!cancellation.is_cancelled());
}

#[test]
fn waiters_are_notified_once() {
    let mut cancellation = RequestCancellation::new();
    assert!(cancellation.cancel());
    assert!(!cancellation.cancel());
    assert!(cancellation.is_cancelled());
}

#[test]
fn a_place_in_the_queue_is_given_back_once() {
    let mut queue = QueueState { queued: 3 };
    let mut ticket = QueueTicket::reserve(&mut queue, 4).unwrap();
    assert_eq!(queue.queued, 4);
    assert_eq!(
        QueueTicket::reserve(&mut queue, 4).unwrap_err(),
        WarmExecutionError::QueueFull
    );
    assert_eq!(queue.queued, 4);
    ticket.release(&mut queue);
    ticket.release(&mut queue);
    assert_eq!(queue.queued, 3);
}

#[test]
fn answers_of_the_semaphore_decide() {
    let mut scheduler = WarmExecutionScheduler::new(test_config());
    assert!(matches!(scheduler.place(SlotOffer::Closed), Admission::Broken));
    let ticket = match scheduler.place(SlotOffer::NoPermits) {
        Admission::Queued(ticket) => ticket,
        other => panic!("expected a place in the queue, got {other:?}"),
    };
    assert!(matches!(
        scheduler.place(SlotOffer::NoPermits),
        Admission::Rejected(WarmExecutionError::QueueFull)
    ));
    assert!(matches!(
        scheduler.queue_left(ticket, QueueOutcome::Closed),
        Admission::Broken
    ));
    let permit = scheduler.semaphore.clone().try_acquire_owned().unwrap();
    assert!(matches!(scheduler.place(SlotOffer::Granted(permit)), Admission::Run(_)));
    assert_eq!(scheduler.queue.queued, 0);
}

#[test]
fn messages_for_requests_that_are_not_run() {
    assert_eq!(WarmExecutionError::QueueFull.message(), "warm execution queue is full");
    assert_eq!(
        WarmExecutionError::QueueTimeout.message(),
        "request did not start before the warm queue timeout"
    );
}

#[test]
fn slots_and_places_are_bounded_and_freed() {
    let mut scheduler = WarmExecutionScheduler::new(WarmExecutionConfig {
        max_active_requests: 2,
        max_queued_requests: 1,
        ..test_config()
    });
    let first = scheduler.begin();
    let second = scheduler.begin();
    assert!(matches!((&first, &second), (Admission::Run(_), Admission::Run(_))));
    let ticket = match scheduler.begin() {
        Admission::Queued(ticket) => ticket,
        other => panic!("expected a place in the queue, got {other:?}"),
    };
    assert!(matches!(
        scheduler.begin(),
        Admission::Rejected(WarmExecutionError::QueueFull)
    ));
    drop(first);
    let permit = scheduler.semaphore.clone().try_acquire_owned().unwrap();
    assert!(matches!(
        scheduler.queue_left(ticket, QueueOutcome::Granted(permit)),
        Admission::Run(_)
    ));
    assert_eq!(scheduler.queue.queued, 0);
}

#[test]
fn the_wait_in_the_queue_is_the_configured_one() {
    let scheduler = WarmExecutionScheduler::new(test_config());
    assert_eq!(scheduler.queue_wait(), Duration::from_millis(25));
    let scheduler = WarmExecutionScheduler::new(WarmExecutionConfig::default());
    assert_eq!(scheduler.queue_wait(), Duration::from_secs(30));
}

#[test]
fn requests_with_a_slot_are_served_once_and_others_not_at_all() {
    let mut scheduler = WarmExecutionScheduler::new(WarmExecutionConfig {
        max_queued_requests: 0,
        ..test_config()
    });
    let mut calls = 0;
    let permit = match scheduler.begin() {
        Admission::Run(permit) => permit,
        other => panic!("expected a slot, got {other:?}"),
    };
    let (permit, output) = serve(Ok(permit), || {
        calls += 1;
        calls * 7
    })
    .unwrap();
    assert_eq!((calls, output), (1, 7));

    let error = match scheduler.begin() {
        Admission::Rejected(error) => error,
        other => panic!("expected a rejection, got {other:?}"),
    };
    let refused = serve(Err(error), || calls += 1).unwrap_err();
    assert_eq!(refused, WarmExecutionError::QueueFull);
    assert_eq!(calls, 1);

    drop(permit);
    assert!(matches!(scheduler.begin(), Admission::Run(_)));
}
