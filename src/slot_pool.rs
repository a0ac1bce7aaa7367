use vstd::prelude::*;

use crate::error::InfraError;

verus! {

/// How a checkout was served.
#[derive(Clone, Copy, Debug, PartialEq, Eq, Structural)]
pub enum Checkout {
    /// Take an idle connection.
    Reuse,
    /// Open a new connection into a free slot.
    Open,
    /// Every slot is issued: block until a release hands one over.
    Wait,
}

/// What becomes of a slot that comes back.
#[derive(Clone, Copy, Debug, PartialEq, Eq, Structural)]
pub enum Checkin {
    /// The slot goes straight to the oldest waiter, which reuses the
    /// connection, or opens a new one if the old one was broken.
    Handoff { waiter: u64, reuse: bool },
    /// The connection joins the idle set.
    Idle,
    /// The connection is closed and the slot left free.
    Discard,
}

/// The slot pool as a mathematical value.
pub struct SlotPoolView {
    pub capacity: nat,
    /// Live connections in the idle set.
    pub idle: nat,
    /// Slots lent out to workers.
    pub issued: nat,
    /// Workers blocked in a checkout, oldest first.
    pub waiters: Seq<u64>,
    pub shut_down: bool,
}

impl SlotPoolView {
    /// At most `capacity` live connections; a worker waits only while every
    /// slot is issued; nothing waits or idles after shutdown.
    pub open spec fn wf(self) -> bool {
        &&& 1 <= self.capacity <= usize::MAX
        &&& self.idle + self.issued <= self.capacity
        &&& self.waiters.len() > 0 ==> self.issued == self.capacity
        &&& self.shut_down ==> self.waiters.len() == 0 && self.idle == 0
    }

    pub open spec fn initial(capacity: nat) -> SlotPoolView {
        SlotPoolView { capacity, idle: 0, issued: 0, waiters: Seq::empty(), shut_down: false }
    }

    /// A worker asks for a connection.
    pub open spec fn acquire(self, waiter: u64) -> (SlotPoolView, Result<Checkout, InfraError>) {
        if self.shut_down {
            (self, Err(InfraError::PoolShutDown))
        } else if self.issued < self.capacity && self.idle > 0 {
            (
                SlotPoolView { idle: (self.idle - 1) as nat, issued: self.issued + 1, ..self },
                Ok(Checkout::Reuse),
            )
        } else if self.issued < self.capacity {
            (SlotPoolView { issued: self.issued + 1, ..self }, Ok(Checkout::Open))
        } else {
            (SlotPoolView { waiters: self.waiters.push(waiter), ..self }, Ok(Checkout::Wait))
        }
    }

    /// A worker gives its slot back; `broken` says that its connection (or
    /// the attempt to open one) failed and must not be reused.
    pub open spec fn release(self, broken: bool) -> (SlotPoolView, Checkin) {
        if self.waiters.len() > 0 {
            (
                SlotPoolView { waiters: self.waiters.drop_first(), ..self },
                Checkin::Handoff { waiter: self.waiters[0], reuse: !broken },
            )
        } else if broken || self.shut_down {
            (SlotPoolView { issued: (self.issued - 1) as nat, ..self }, Checkin::Discard)
        } else {
            (
                SlotPoolView { issued: (self.issued - 1) as nat, idle: self.idle + 1, ..self },
                Checkin::Idle,
            )
        }
    }

    /// Shut down: idle connections are closed and the waiters are returned,
    /// each to fail with `PoolShutDown`; issued slots come back later.
    pub open spec fn shut_down(self) -> (SlotPoolView, Seq<u64>) {
        (
            SlotPoolView { idle: 0, waiters: Seq::empty(), shut_down: true, ..self },
            self.waiters,
        )
    }
}

/// A bounded set of connection slots with checkout and checkin. The
/// connections themselves are held by the caller; this decides which
/// checkout is served, in arrival order, and never lets more than
/// `capacity` slots out at once.
pub struct SlotPool {
    capacity: usize,
    idle: usize,
    issued: usize,
    waiters: Vec<u64>,
    shut_down: bool,
}

impl View for SlotPool {
    type V = SlotPoolView;

    closed spec fn view(&self) -> SlotPoolView {
        SlotPoolView {
            capacity: self.capacity as nat,
            idle: self.idle as nat,
            issued: self.issued as nat,
            waiters: self.waiters@,
            shut_down: self.shut_down,
        }
    }
}

impl SlotPool {
    /// A pool of `capacity` slots, none of them opened yet.
    pub fn new(capacity: usize) -> (r: SlotPool)
        requires
            capacity >= 1,
        ensures
            r@ == SlotPoolView::initial(capacity as nat),
            r@.wf(),
    {
        SlotPool { capacity, idle: 0, issued: 0, waiters: Vec::new(), shut_down: false }
    }

    pub fn capacity(&self) -> (r: usize)
        ensures
            r == self@.capacity,
    {
        self.capacity
    }

    pub fn issued(&self) -> (r: usize)
        ensures
            r == self@.issued,
    {
        self.issued
    }

    pub fn idle(&self) -> (r: usize)
        ensures
            r == self@.idle,
    {
        self.idle
    }

    pub fn waiting(&self) -> (r: usize)
        ensures
            r == self@.waiters.len(),
    {
        self.waiters.len()
    }

    pub fn is_shut_down(&self) -> (r: bool)
        ensures
            r == self@.shut_down,
    {
        self.shut_down
    }

    /// Checks a slot out for `waiter`, or queues it, or refuses after
    /// shutdown.
    pub fn acquire(&mut self, waiter: u64) -> (r: Result<Checkout, InfraError>)
        requires
            old(self)@.wf(),
        ensures
            (final(self)@, r) == old(self)@.acquire(waiter),
            final(self)@.wf(),
    {
        if self.shut_down {
            Err(InfraError::PoolShutDown)
        } else if self.issued < self.capacity && self.idle > 0 {
            self.idle = self.idle - 1;
            self.issued = self.issued + 1;
            Ok(Checkout::Reuse)
        } else if self.issued < self.capacity {
            self.issued = self.issued + 1;
            Ok(Checkout::Open)
        } else {
            self.waiters.push(waiter);
            Ok(Checkout::Wait)
        }
    }

    /// Checks an issued slot back in.
    pub fn release(&mut self, broken: bool) -> (r: Checkin)
        requires
            old(self)@.wf(),
            old(self)@.issued > 0,
        ensures
            (final(self)@, r) == old(self)@.release(broken),
            final(self)@.wf(),
    {
        if self.waiters.len() > 0 {
            let w = self.waiters.remove(0);
            proof {
                assert(self.waiters@ =~= old(self)@.waiters.drop_first());
            }
            Checkin::Handoff { waiter: w, reuse: !broken }
        } else if broken || self.shut_down {
            self.issued = self.issued - 1;
            Checkin::Discard
        } else {
            self.issued = self.issued - 1;
            self.idle = self.idle + 1;
            Checkin::Idle
        }
    }

    /// Shuts the pool down, returning the waiters to be failed, oldest first.
    pub fn shut_down(&mut self) -> (r: Vec<u64>)
        requires
            old(self)@.wf(),
        ensures
            (final(self)@, r@) == old(self)@.shut_down(),
            final(self)@.wf(),
    {
        let woken = self.waiters.clone();
        proof {
            assert(woken@ =~= old(self)@.waiters);
        }
        self.waiters = Vec::new();
        self.idle = 0;
        self.shut_down = true;
        woken
    }
}

} // verus!
