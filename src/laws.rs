use vstd::prelude::*;

use crate::dispatcher::{DispatcherView, Lifecycle, WorkerStep};
use crate::error::{resolution, BridgeError, InfraError, WorkReport};
use crate::slot_pool::{Checkin, Checkout, SlotPoolView};

verus! {

/// One call into the slot pool.
pub enum SlotEvent {
    Acquire(u64),
    Release(bool),
    ShutDown,
}

/// The slot pool after a sequence of calls. A release with no slot issued
/// is not a call that can be made, and leaves the pool as it is.
pub open spec fn run_slots(v: SlotPoolView, events: Seq<SlotEvent>) -> SlotPoolView
    decreases events.len(),
{
    if events.len() == 0 {
        v
    } else {
        let prev = run_slots(v, events.drop_last());
        match events.last() {
            SlotEvent::Acquire(w) => prev.acquire(w).0,
            SlotEvent::Release(broken) => if prev.issued > 0 {
                prev.release(broken).0
            } else {
                prev
            },
            SlotEvent::ShutDown => prev.shut_down().0,
        }
    }
}

/// One call into the dispatcher.
pub enum DispatchEvent {
    Submit,
    Take,
    Complete,
    Drain,
    ShutDown,
}

/// The dispatcher after a sequence of calls. A completion with nothing
/// running is not a call that can be made, and leaves it as it is.
pub open spec fn run_dispatcher(v: DispatcherView, events: Seq<DispatchEvent>) -> DispatcherView
    decreases events.len(),
{
    if events.len() == 0 {
        v
    } else {
        let prev = run_dispatcher(v, events.drop_last());
        match events.last() {
            DispatchEvent::Submit => prev.submit().0,
            DispatchEvent::Take => prev.take().0,
            DispatchEvent::Complete => if prev.in_flight > 0 {
                prev.complete()
            } else {
                prev
            },
            DispatchEvent::Drain => prev.drain(),
            DispatchEvent::ShutDown => prev.shut_down().0,
        }
    }
}

proof fn lemma_slots_stay_wf(v: SlotPoolView, events: Seq<SlotEvent>)
    requires
        v.wf(),
    ensures
        run_slots(v, events).wf(),
        run_slots(v, events).capacity == v.capacity,
    decreases events.len(),
{
    if events.len() > 0 {
        lemma_slots_stay_wf(v, events.drop_last());
    }
}

proof fn lemma_dispatcher_stays_wf(v: DispatcherView, events: Seq<DispatchEvent>)
    requires
        v.wf(),
    ensures
        run_dispatcher(v, events).wf(),
        run_dispatcher(v, events).workers == v.workers,
    decreases events.len(),
{
    if events.len() > 0 {
        lemma_dispatcher_stays_wf(v, events.drop_last());
    }
}

/// For every capacity N >= 1 and every sequence of calls, however many
/// callers compete, no more than N connection slots are issued at once, and
/// no more than N items run at once on a dispatcher of N workers.
pub proof fn lemma_never_more_than_capacity(
    capacity: nat,
    slot_events: Seq<SlotEvent>,
    dispatch_events: Seq<DispatchEvent>,
)
    requires
        1 <= capacity <= usize::MAX,
    ensures
        run_slots(SlotPoolView::initial(capacity), slot_events).issued <= capacity,
        run_slots(SlotPoolView::initial(capacity), slot_events).issued
            + run_slots(SlotPoolView::initial(capacity), slot_events).idle <= capacity,
        run_dispatcher(DispatcherView::initial(capacity), dispatch_events).in_flight <= capacity,
{
    lemma_slots_stay_wf(SlotPoolView::initial(capacity), slot_events);
    lemma_dispatcher_stays_wf(DispatcherView::initial(capacity), dispatch_events);
}

/// Queued items are served first in, first out, and none is dropped. Take
/// the item at position `i` of the queue: a submission, a completion or a
/// drain leaves it at `i` and puts any new item behind it; each dispatch
/// either runs it (when `i` is 0) or moves it one place forward; a free
/// worker is always given the head of a non-empty queue; and a shutdown hands
/// it back to be answered. So it runs after at most `i + 1` dispatches,
/// whatever newer items arrive, unless the pool is shut down first.
pub proof fn lemma_queue_progress(v: DispatcherView, i: int)
    requires
        v.wf(),
        0 <= i < v.queue.len(),
    ensures
        ({
            let (s, r) = v.submit();
            &&& s.queue.len() > i && s.queue[i] == v.queue[i]
            &&& (r matches Ok(t) ==> t > v.queue[i] && s.queue.last() == t)
        }),
        v.drain().queue == v.queue,
        v.in_flight > 0 ==> v.complete().queue == v.queue,
        v.in_flight < v.workers ==> v.take().1 == WorkerStep::Run(v.queue[0]),
        v.in_flight == v.workers ==> v.take() == (v, WorkerStep::Wait),
        ({
            let (s, r) = v.take();
            &&& i == 0 ==> (r matches WorkerStep::Run(t) ==> t == v.queue[i] && !s.queue.contains(t))
            &&& i > 0 ==> (r is Run ==> s.queue[i - 1] == v.queue[i])
        }),
        v.shut_down().1[i] == v.queue[i],
{
    let s = v.take().0;
    if i == 0 && v.queue.len() > 0 && v.in_flight < v.workers && s.queue.contains(v.queue[0]) {
        let k = choose|k: int| 0 <= k < s.queue.len() && s.queue[k] == v.queue[0];
        assert(v.queue[k + 1] == v.queue[0]);
    }
}

/// Workers blocked in a checkout are served in arrival order: a later
/// checkout queues behind the worker at position `i`, and each release moves
/// it one place forward or, when it is first, hands the slot to it.
pub proof fn lemma_waiters_served_in_order(p: SlotPoolView, i: int, w: u64, broken: bool)
    requires
        p.wf(),
        0 <= i < p.waiters.len(),
    ensures
        ({
            let (q, r) = p.acquire(w);
            &&& r == Ok::<Checkout, InfraError>(Checkout::Wait)
            &&& q.waiters == p.waiters.push(w)
        }),
        ({
            let (q, r) = p.release(broken);
            &&& i == 0 ==> r == (Checkin::Handoff { waiter: p.waiters[i], reuse: !broken })
            &&& i > 0 ==> q.waiters[i - 1] == p.waiters[i]
            &&& q.issued == p.issued
        }),
{
}

/// A closed queue takes nothing: after a shutdown every new submission fails
/// at once with an infrastructure error and every checkout is refused, while
/// the items already running still complete and their slots still come back.
pub proof fn lemma_shut_down_refuses_new_work(v: DispatcherView, p: SlotPoolView)
    requires
        v.wf(),
        p.wf(),
    ensures
        ({
            let s = v.shut_down().0;
            &&& s.submit() == (s, Err::<u64, InfraError>(InfraError::PoolShutDown))
            &&& s.take() == (s, WorkerStep::Exit)
            &&& s.in_flight == v.in_flight
            &&& s.in_flight > 0 ==> s.complete().in_flight == s.in_flight - 1
        }),
        ({
            let q = p.shut_down().0;
            &&& forall|w: u64| #[trigger] q.acquire(w) == (q, Err::<Checkout, InfraError>(InfraError::PoolShutDown))
            &&& q.issued == p.issued
            &&& q.issued > 0 ==> q.release(false).0.issued == q.issued - 1
        }),
{
}

/// A unit of work's own error reaches its caller unmodified, as a domain
/// error; only a failure of the worker itself becomes an infrastructure
/// error.
pub proof fn lemma_domain_error_verbatim<T, E>(e: E)
    ensures
        resolution(WorkReport::<T, E>::Returned(Err(e))) == Err::<T, BridgeError<E>>(
            BridgeError::Domain(e),
        ),
        resolution(WorkReport::<T, E>::Panicked) == Err::<T, BridgeError<E>>(
            BridgeError::Infra(InfraError::WorkerFailure),
        ),
{
}

/// A worker whose work failed unexpectedly still frees its place: the pool
/// keeps running, accepts new submissions and hands a queued item to a free
/// worker; the failed item's slot comes back, its connection discarded, and
/// goes to the oldest waiter, who opens a fresh one, or is left free.
pub proof fn lemma_failure_keeps_serving(v: DispatcherView, p: SlotPoolView)
    requires
        v.wf(),
        v.lifecycle == Lifecycle::Running,
        v.in_flight > 0,
        v.next_ticket < u64::MAX,
        p.wf(),
        p.issued > 0,
    ensures
        ({
            let c = v.complete();
            &&& c.wf()
            &&& c.lifecycle == Lifecycle::Running
            &&& c.submit().1 is Ok
            &&& c.submit().0.take().1 is Run
        }),
        ({
            let (q, c) = p.release(true);
            &&& q.wf()
            &&& c is Handoff || c is Discard
            &&& c matches Checkin::Handoff { waiter, reuse } ==> waiter == p.waiters[0] && !reuse
            &&& c is Discard ==> q.issued == p.issued - 1 && q.idle == p.idle
        }),
{
}

} // verus!
