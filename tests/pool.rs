use customer_service::{
    resolve, BridgeError, Checkin, Checkout, DataError, Dispatcher, InfraError, Lifecycle,
    PoolCore, SlotPool, WorkReport, WorkerStep,
};

#[test]
fn capacity_one_serializes_two_calls() {
    let mut core = PoolCore::new(1);
    assert_eq!(core.capacity(), 1);
    assert_eq!(core.submit(), Ok(0));
    assert_eq!(core.submit(), Ok(1));
    assert_eq!(core.take_item(), WorkerStep::Run(0));
    // the single worker is busy: the second call waits for the first
    assert_eq!(core.take_item(), WorkerStep::Wait);
    assert_eq!(core.check_out(0), Ok(Checkout::Open));
    assert_eq!(core.check_in(false), Checkin::Idle);
    let first: Result<u32, BridgeError<DataError>> = core.finish(WorkReport::Returned(Ok(10)));
    assert_eq!(first, Ok(10));
    assert_eq!(core.take_item(), WorkerStep::Run(1));
    assert_eq!(core.check_out(0), Ok(Checkout::Reuse));
    assert_eq!(core.check_in(false), Checkin::Idle);
    let second: Result<u32, BridgeError<DataError>> = core.finish(WorkReport::Returned(Ok(20)));
    assert_eq!(second, Ok(20));
}

#[test]
fn single_slot_is_handed_to_the_waiter() {
    let mut slots = SlotPool::new(1);
    assert_eq!(slots.acquire(1), Ok(Checkout::Open));
    assert_eq!(slots.acquire(2), Ok(Checkout::Wait));
    assert_eq!(slots.issued(), 1);
    assert_eq!(slots.release(false), Checkin::Handoff { waiter: 2, reuse: true });
    assert_eq!(slots.issued(), 1);
    assert_eq!(slots.release(false), Checkin::Idle);
    assert_eq!(slots.issued(), 0);
    assert_eq!(slots.idle(), 1);
}

#[test]
fn never_more_slots_than_capacity() {
    let mut slots = SlotPool::new(3);
    let mut waits = 0;
    for w in 0..10u64 {
        match slots.acquire(w) {
            Ok(Checkout::Wait) => waits += 1,
            Ok(_) => {}
            Err(e) => panic!("unexpected {:?}", e),
        }
        assert!(slots.issued() <= 3);
    }
    assert_eq!(waits, 7);
    assert_eq!(slots.waiting(), 7);
    for w in 3..10u64 {
        assert_eq!(slots.release(false), Checkin::Handoff { waiter: w, reuse: true });
        assert_eq!(slots.issued(), 3);
    }
    assert_eq!(slots.release(false), Checkin::Idle);
    assert_eq!(slots.issued(), 2);
}

#[test]
fn dispatcher_never_runs_more_than_its_workers() {
    let mut d = Dispatcher::new(2);
    for _ in 0..5 {
        assert!(d.submit().is_ok());
    }
    assert_eq!(d.take(), WorkerStep::Run(0));
    assert_eq!(d.take(), WorkerStep::Run(1));
    assert_eq!(d.take(), WorkerStep::Wait);
    assert_eq!(d.in_flight(), 2);
    assert_eq!(d.queued(), 3);
}

#[test]
fn queue_is_first_in_first_out() {
    let mut d = Dispatcher::new(1);
    assert_eq!(d.submit(), Ok(0));
    assert_eq!(d.submit(), Ok(1));
    assert_eq!(d.take(), WorkerStep::Run(0));
    // a newer item does not overtake the queued one
    assert_eq!(d.submit(), Ok(2));
    let _: Result<(), BridgeError<()>> = d.complete(WorkReport::Returned(Ok(())));
    assert_eq!(d.take(), WorkerStep::Run(1));
    let _: Result<(), BridgeError<()>> = d.complete(WorkReport::Returned(Ok(())));
    assert_eq!(d.take(), WorkerStep::Run(2));
}

#[test]
fn every_submitted_item_is_run_or_answered() {
    let mut d = Dispatcher::new(2);
    for _ in 0..4 {
        assert!(d.submit().is_ok());
    }
    assert_eq!(d.take(), WorkerStep::Run(0));
    let aborted = d.shut_down();
    assert_eq!(aborted, vec![1, 2, 3]);
    assert_eq!(d.queued(), 0);
    assert_eq!(d.in_flight(), 1);
}

#[test]
fn domain_error_reaches_caller_unmodified() {
    let r: Result<u8, BridgeError<DataError>> =
        resolve(WorkReport::Returned(Err(DataError::Other("unique violation".to_string()))));
    assert_eq!(r, Err(BridgeError::Domain(DataError::Other("unique violation".to_string()))));
}

#[test]
fn row_not_found_is_not_an_infrastructure_error() {
    let direct: Result<u8, DataError> = Err(DataError::NotFound);
    let mut core = PoolCore::new(2);
    assert_eq!(core.submit(), Ok(0));
    assert_eq!(core.take_item(), WorkerStep::Run(0));
    assert_eq!(core.check_out(7), Ok(Checkout::Open));
    assert_eq!(core.check_in(false), Checkin::Idle);
    let via_pool = core.finish(WorkReport::Returned(direct.clone()));
    assert_eq!(via_pool, Err(BridgeError::Domain(DataError::NotFound)));
    assert_eq!(via_pool.map_err(|e| match e {
        BridgeError::Domain(d) => d,
        BridgeError::Infra(_) => panic!("infrastructure error"),
    }), direct);
}

#[test]
fn worker_failure_keeps_pool_serving() {
    let mut core = PoolCore::new(2);
    assert_eq!(core.submit(), Ok(0));
    assert_eq!(core.take_item(), WorkerStep::Run(0));
    assert_eq!(core.check_out(0), Ok(Checkout::Open));
    assert_eq!(core.check_in(true), Checkin::Discard);
    let failed: Result<u8, BridgeError<DataError>> = core.finish(WorkReport::Panicked);
    assert_eq!(failed, Err(BridgeError::Infra(InfraError::WorkerFailure)));
    assert_eq!(core.submit(), Ok(1));
    assert_eq!(core.take_item(), WorkerStep::Run(1));
    // the broken connection was discarded: a fresh one is opened
    assert_eq!(core.check_out(1), Ok(Checkout::Open));
    assert_eq!(core.check_in(false), Checkin::Idle);
    let ok: Result<u8, BridgeError<DataError>> = core.finish(WorkReport::Returned(Ok(5)));
    assert_eq!(ok, Ok(5));
}

#[test]
fn broken_connection_is_replaced_for_the_waiter() {
    let mut slots = SlotPool::new(1);
    assert_eq!(slots.acquire(1), Ok(Checkout::Open));
    assert_eq!(slots.acquire(2), Ok(Checkout::Wait));
    assert_eq!(slots.release(true), Checkin::Handoff { waiter: 2, reuse: false });
    assert_eq!(slots.release(true), Checkin::Discard);
    assert_eq!(slots.issued(), 0);
    assert_eq!(slots.idle(), 0);
}

#[test]
fn shut_down_refuses_new_gets_and_lets_running_finish() {
    let mut core = PoolCore::new(2);
    assert_eq!(core.submit(), Ok(0));
    assert_eq!(core.take_item(), WorkerStep::Run(0));
    assert_eq!(core.check_out(0), Ok(Checkout::Open));
    assert_eq!(core.submit(), Ok(1));
    assert_eq!(core.shut_down(), vec![1]);
    assert_eq!(core.submit(), Err(InfraError::PoolShutDown));
    assert_eq!(core.take_item(), WorkerStep::Exit);
    assert_eq!(core.check_in(false), Checkin::Discard);
    let done: Result<u8, BridgeError<DataError>> = core.finish(WorkReport::Returned(Ok(3)));
    assert_eq!(done, Ok(3));
}

#[test]
fn checkout_after_shut_down_is_refused() {
    let mut slots = SlotPool::new(2);
    assert_eq!(slots.acquire(1), Ok(Checkout::Open));
    assert_eq!(slots.release(false), Checkin::Idle);
    assert_eq!(slots.acquire(2), Ok(Checkout::Reuse));
    assert_eq!(slots.acquire(3), Ok(Checkout::Open));
    assert_eq!(slots.acquire(4), Ok(Checkout::Wait));
    assert_eq!(slots.shut_down(), vec![4]);
    assert!(slots.is_shut_down());
    assert_eq!(slots.acquire(5), Err(InfraError::PoolShutDown));
    assert_eq!(slots.release(false), Checkin::Discard);
    assert_eq!(slots.idle(), 0);
}

#[test]
fn abandoned_item_reports_pool_shut_down() {
    let mut core = PoolCore::new(1);
    assert_eq!(core.submit(), Ok(0));
    assert_eq!(core.take_item(), WorkerStep::Run(0));
    assert_eq!(core.shut_down(), Vec::<u64>::new());
    assert_eq!(core.check_out(0), Err(InfraError::PoolShutDown));
    let r: Result<u8, BridgeError<DataError>> = core.abandon();
    assert_eq!(r, Err(BridgeError::Infra(InfraError::PoolShutDown)));
}

#[test]
fn draining_rejects_new_items_but_runs_queued_ones() {
    let mut d = Dispatcher::new(1);
    assert_eq!(d.submit(), Ok(0));
    d.drain();
    assert_eq!(d.lifecycle(), Lifecycle::Draining);
    assert_eq!(d.submit(), Err(InfraError::QueueClosed));
    assert_eq!(d.take(), WorkerStep::Run(0));
    let _: Result<(), BridgeError<()>> = d.complete(WorkReport::Returned(Ok(())));
    assert_eq!(d.take(), WorkerStep::Exit);
}

#[test]
fn idle_worker_waits_while_running() {
    let mut d = Dispatcher::new(3);
    assert_eq!(d.workers(), 3);
    assert_eq!(d.take(), WorkerStep::Wait);
}
