use vstd::prelude::*;

use crate::error::{resolution, resolve, BridgeError, InfraError, WorkReport};

verus! {

/// Lifecycle of the bridge: running accepts work, draining lets queued and
/// running items finish but takes no new ones, shut down takes nothing.
#[derive(Clone, Copy, Debug, PartialEq, Eq, Structural)]
pub enum Lifecycle {
    Running,
    Draining,
    ShutDown,
}

/// What a free worker is told to do next.
#[derive(Clone, Copy, Debug, PartialEq, Eq, Structural)]
pub enum WorkerStep {
    /// Run the item with this ticket.
    Run(u64),
    /// Nothing to run yet: block until an item is queued.
    Wait,
    /// The queue is empty and takes no more items: leave the loop.
    Exit,
}

/// The dispatcher as a mathematical value.
pub struct DispatcherView {
    pub lifecycle: Lifecycle,
    /// Tickets of the queued items, oldest first.
    pub queue: Seq<u64>,
    /// Number of items that workers are running.
    pub in_flight: nat,
    /// Number of workers.
    pub workers: nat,
    /// The ticket that the next accepted item receives.
    pub next_ticket: nat,
}

/// The queue holds each ticket once, in the order of submission, and only
/// tickets that were handed out.
pub open spec fn queue_ordered(q: Seq<u64>, next_ticket: nat) -> bool {
    &&& forall|i: int, j: int| 0 <= i < j < q.len() ==> q[i] < q[j]
    &&& forall|i: int| 0 <= i < q.len() ==> q[i] < next_ticket
}

impl DispatcherView {
    pub open spec fn wf(self) -> bool {
        &&& 1 <= self.workers <= usize::MAX
        &&& self.in_flight <= self.workers
        &&& self.next_ticket <= u64::MAX
        &&& queue_ordered(self.queue, self.next_ticket)
        &&& self.lifecycle == Lifecycle::ShutDown ==> self.queue.len() == 0
    }

    /// A fresh dispatcher with `workers` workers.
    pub open spec fn initial(workers: nat) -> DispatcherView {
        DispatcherView {
            lifecycle: Lifecycle::Running,
            queue: Seq::empty(),
            in_flight: 0,
            workers,
            next_ticket: 0,
        }
    }

    /// Submitting an item: it is queued under a fresh ticket while running;
    /// otherwise it is refused with an infrastructure error.
    pub open spec fn submit(self) -> (DispatcherView, Result<u64, InfraError>) {
        match self.lifecycle {
            Lifecycle::ShutDown => (self, Err(InfraError::PoolShutDown)),
            Lifecycle::Draining => (self, Err(InfraError::QueueClosed)),
            Lifecycle::Running => if self.next_ticket >= u64::MAX {
                (self, Err(InfraError::QueueClosed))
            } else {
                (
                    DispatcherView {
                        queue: self.queue.push(self.next_ticket as u64),
                        next_ticket: self.next_ticket + 1,
                        ..self
                    },
                    Ok(self.next_ticket as u64),
                )
            },
        }
    }

    /// A free worker asks for work: the oldest queued item, if no more than
    /// `workers` items would then run; exit once the queue is empty and closed.
    pub open spec fn take(self) -> (DispatcherView, WorkerStep) {
        if self.queue.len() > 0 && self.in_flight < self.workers {
            (
                DispatcherView {
                    queue: self.queue.drop_first(),
                    in_flight: self.in_flight + 1,
                    ..self
                },
                WorkerStep::Run(self.queue[0]),
            )
        } else if self.queue.len() == 0 && self.lifecycle != Lifecycle::Running {
            (self, WorkerStep::Exit)
        } else {
            (self, WorkerStep::Wait)
        }
    }

    /// A running item finished, whatever its outcome.
    pub open spec fn complete(self) -> DispatcherView {
        DispatcherView { in_flight: (self.in_flight - 1) as nat, ..self }
    }

    /// Stop taking new items; queued and running ones still finish.
    pub open spec fn drain(self) -> DispatcherView {
        if self.lifecycle == Lifecycle::Running {
            DispatcherView { lifecycle: Lifecycle::Draining, ..self }
        } else {
            self
        }
    }

    /// Shut down: the queued items are handed back to be aborted, running
    /// items still finish.
    pub open spec fn shut_down(self) -> (DispatcherView, Seq<u64>) {
        (DispatcherView { lifecycle: Lifecycle::ShutDown, queue: Seq::empty(), ..self }, self.queue)
    }
}

/// The shared FIFO queue of work items and the count of items running on the
/// workers. It decides; the threads that wait and run live around it.
pub struct Dispatcher {
    lifecycle: Lifecycle,
    queue: Vec<u64>,
    in_flight: usize,
    workers: usize,
    next_ticket: u64,
}

impl View for Dispatcher {
    type V = DispatcherView;

    closed spec fn view(&self) -> DispatcherView {
        DispatcherView {
            lifecycle: self.lifecycle,
            queue: self.queue@,
            in_flight: self.in_flight as nat,
            workers: self.workers as nat,
            next_ticket: self.next_ticket as nat,
        }
    }
}

impl Dispatcher {
    /// A running dispatcher for `workers` workers, with an empty queue.
    pub fn new(workers: usize) -> (r: Dispatcher)
        requires
            workers >= 1,
        ensures
            r@ == DispatcherView::initial(workers as nat),
            r@.wf(),
    {
        Dispatcher {
            lifecycle: Lifecycle::Running,
            queue: Vec::new(),
            in_flight: 0,
            workers,
            next_ticket: 0,
        }
    }

    pub fn lifecycle(&self) -> (r: Lifecycle)
        ensures
            r == self@.lifecycle,
    {
        self.lifecycle
    }

    pub fn queued(&self) -> (r: usize)
        ensures
            r == self@.queue.len(),
    {
        self.queue.len()
    }

    pub fn in_flight(&self) -> (r: usize)
        ensures
            r == self@.in_flight,
    {
        self.in_flight
    }

    pub fn workers(&self) -> (r: usize)
        ensures
            r == self@.workers,
    {
        self.workers
    }

    /// Queues a new item and returns its ticket, or refuses it.
    pub fn submit(&mut self) -> (r: Result<u64, InfraError>)
        requires
            old(self)@.wf(),
        ensures
            (final(self)@, r) == old(self)@.submit(),
            final(self)@.wf(),
    {
        match self.lifecycle {
            Lifecycle::ShutDown => Err(InfraError::PoolShutDown),
            Lifecycle::Draining => Err(InfraError::QueueClosed),
            Lifecycle::Running => {
                if self.next_ticket == u64::MAX {
                    Err(InfraError::QueueClosed)
                } else {
                    let t = self.next_ticket;
                    self.queue.push(t);
                    self.next_ticket = t + 1;
                    Ok(t)
                }
            },
        }
    }

    /// Tells a free worker what to do next.
    pub fn take(&mut self) -> (r: WorkerStep)
        requires
            old(self)@.wf(),
        ensures
            (final(self)@, r) == old(self)@.take(),
            final(self)@.wf(),
    {
        if self.queue.len() > 0 && self.in_flight < self.workers {
            let t = self.queue.remove(0);
            self.in_flight = self.in_flight + 1;
            proof {
                assert(self.queue@ =~= old(self)@.queue.drop_first());
            }
            WorkerStep::Run(t)
        } else if self.queue.len() == 0 && self.lifecycle != Lifecycle::Running {
            WorkerStep::Exit
        } else {
            WorkerStep::Wait
        }
    }

    /// Records that a running item finished and returns what its caller
    /// receives.
    pub fn complete<T, E>(&mut self, report: WorkReport<T, E>) -> (r: Result<T, BridgeError<E>>)
        requires
            old(self)@.wf(),
            old(self)@.in_flight > 0,
        ensures
            final(self)@ == old(self)@.complete(),
            final(self)@.wf(),
            r == resolution(report),
    {
        self.retire();
        resolve(report)
    }

    /// Records that a running item ended without a report of its work.
    pub fn retire(&mut self)
        requires
            old(self)@.wf(),
            old(self)@.in_flight > 0,
        ensures
            final(self)@ == old(self)@.complete(),
            final(self)@.wf(),
    {
        self.in_flight = self.in_flight - 1;
    }

    /// Closes the queue to new items.
    pub fn drain(&mut self)
        requires
            old(self)@.wf(),
        ensures
            final(self)@ == old(self)@.drain(),
            final(self)@.wf(),
    {
        if self.lifecycle == Lifecycle::Running {
            self.lifecycle = Lifecycle::Draining;
        }
    }

    /// Shuts down, returning the tickets of the queued items, oldest first:
    /// each of them is to be answered with `PoolShutDown`.
    pub fn shut_down(&mut self) -> (r: Vec<u64>)
        requires
            old(self)@.wf(),
        ensures
            (final(self)@, r@) == old(self)@.shut_down(),
            final(self)@.wf(),
    {
        self.lifecycle = Lifecycle::ShutDown;
        let aborted = self.queue.clone();
        proof {
            assert(aborted@ =~= old(self)@.queue);
        }
        self.queue = Vec::new();
        aborted
    }
}

} // verus!
