use vstd::prelude::*;

use crate::dispatcher::{Dispatcher, DispatcherView, Lifecycle, WorkerStep};
use crate::error::{resolution, BridgeError, InfraError, WorkReport};
use crate::slot_pool::{Checkin, Checkout, SlotPool, SlotPoolView};

verus! {

/// The shared state behind the asynchronous bridge: the work queue and the
/// connection slots, sized alike, so that the dispatcher is the only source
/// of demand for slots. Every worker cycle is `take_item`, `check_out`, the
/// work itself, `check_in`, `finish`.
pub struct PoolCore {
    dispatcher: Dispatcher,
    slots: SlotPool,
}

impl PoolCore {
    pub closed spec fn dispatch_view(&self) -> DispatcherView {
        self.dispatcher@
    }

    pub closed spec fn slot_view(&self) -> SlotPoolView {
        self.slots@
    }

    /// Both parts are well formed, have one worker per slot, and only a
    /// worker that holds an item holds a slot; so no checkout ever waits.
    pub open spec fn wf(&self) -> bool {
        &&& self.dispatch_view().wf()
        &&& self.slot_view().wf()
        &&& self.dispatch_view().workers == self.slot_view().capacity
        &&& self.slot_view().issued <= self.dispatch_view().in_flight
        &&& self.slot_view().waiters.len() == 0
        &&& self.slot_view().shut_down == (self.dispatch_view().lifecycle
            == Lifecycle::ShutDown)
    }

    /// A running core with `capacity` slots and as many workers.
    pub fn new(capacity: usize) -> (r: PoolCore)
        requires
            capacity >= 1,
        ensures
            r.wf(),
            r.dispatch_view() == DispatcherView::initial(capacity as nat),
            r.slot_view() == SlotPoolView::initial(capacity as nat),
    {
        PoolCore { dispatcher: Dispatcher::new(capacity), slots: SlotPool::new(capacity) }
    }

    pub fn capacity(&self) -> (r: usize)
        ensures
            r == self.slot_view().capacity,
    {
        self.slots.capacity()
    }

    /// Queues a new unit of work under a fresh ticket, or refuses it.
    pub fn submit(&mut self) -> (r: Result<u64, InfraError>)
        requires
            old(self).wf(),
        ensures
            final(self).wf(),
            (final(self).dispatch_view(), r) == old(self).dispatch_view().submit(),
            final(self).slot_view() == old(self).slot_view(),
    {
        self.dispatcher.submit()
    }

    /// Tells a free worker what to do next.
    pub fn take_item(&mut self) -> (r: WorkerStep)
        requires
            old(self).wf(),
        ensures
            final(self).wf(),
            (final(self).dispatch_view(), r) == old(self).dispatch_view().take(),
            final(self).slot_view() == old(self).slot_view(),
    {
        self.dispatcher.take()
    }

    /// A worker that took an item asks for a connection: it is served at
    /// once, or refused after shutdown; it never has to wait.
    pub fn check_out(&mut self, worker: u64) -> (r: Result<Checkout, InfraError>)
        requires
            old(self).wf(),
            old(self).slot_view().issued < old(self).dispatch_view().in_flight,
        ensures
            final(self).wf(),
            (final(self).slot_view(), r) == old(self).slot_view().acquire(worker),
            final(self).dispatch_view() == old(self).dispatch_view(),
            r != Ok::<Checkout, InfraError>(Checkout::Wait),
    {
        self.slots.acquire(worker)
    }

    /// A worker gives its slot back once the work has returned or failed.
    pub fn check_in(&mut self, broken: bool) -> (r: Checkin)
        requires
            old(self).wf(),
            old(self).slot_view().issued > 0,
        ensures
            final(self).wf(),
            (final(self).slot_view(), r) == old(self).slot_view().release(broken),
            final(self).dispatch_view() == old(self).dispatch_view(),
            !(r is Handoff),
    {
        self.slots.release(broken)
    }

    /// A worker that holds no slot is done with its item: the work's
    /// outcome becomes what the caller receives.
    pub fn finish<T, E>(&mut self, report: WorkReport<T, E>) -> (r: Result<T, BridgeError<E>>)
        requires
            old(self).wf(),
            old(self).slot_view().issued < old(self).dispatch_view().in_flight,
        ensures
            final(self).wf(),
            final(self).dispatch_view() == old(self).dispatch_view().complete(),
            final(self).slot_view() == old(self).slot_view(),
            r == resolution(report),
    {
        self.dispatcher.complete(report)
    }

    /// A worker whose checkout was refused gives its item up: the caller
    /// receives `PoolShutDown`.
    pub fn abandon<T, E>(&mut self) -> (r: Result<T, BridgeError<E>>)
        requires
            old(self).wf(),
            old(self).slot_view().issued < old(self).dispatch_view().in_flight,
        ensures
            final(self).wf(),
            final(self).dispatch_view() == old(self).dispatch_view().complete(),
            final(self).slot_view() == old(self).slot_view(),
            r == Err::<T, BridgeError<E>>(BridgeError::Infra(InfraError::PoolShutDown)),
    {
        self.dispatcher.retire();
        Err(BridgeError::Infra(InfraError::PoolShutDown))
    }

    /// Closes the queue to new items; queued and running items finish.
    pub fn drain(&mut self)
        requires
            old(self).wf(),
        ensures
            final(self).wf(),
            final(self).dispatch_view() == old(self).dispatch_view().drain(),
            final(self).slot_view() == old(self).slot_view(),
    {
        self.dispatcher.drain()
    }

    /// Shuts down: returns the tickets of the queued items, oldest first,
    /// each to be answered with `PoolShutDown`; idle connections are to be
    /// closed, and running items still finish.
    pub fn shut_down(&mut self) -> (r: Vec<u64>)
        requires
            old(self).wf(),
        ensures
            final(self).wf(),
            (final(self).dispatch_view(), r@) == old(self).dispatch_view().shut_down(),
            final(self).slot_view() == old(self).slot_view().shut_down().0,
    {
        self.slots.shut_down();
        self.dispatcher.shut_down()
    }
}

} // verus!
