//! The cancellation signal and the sharing model of one handle.
//!
//! The signal is a broadcast wake-up with no payload and no memory: firing
//! it wakes every receive waiting at that moment, exactly once, and leaves
//! no sticky "cancelled" state behind — a receive that starts waiting after
//! a fire is not woken by it. One underlying handle may be aliased by
//! several endpoint objects; every alias shares the handle's signal, any
//! alias may fire it, and dropping the last alias fires it unconditionally,
//! so no receive is left waiting on a handle nobody can reach any more.

use vstd::prelude::*;

verus! {

/// A broadcast wake-up shared by every alias of one handle. `waiting`
/// counts the receives parked on the signal right now.
pub struct CancellationSignal {
    waiting: u64,
}

impl View for CancellationSignal {
    type V = u64;

    closed spec fn view(&self) -> u64 {
        self.waiting
    }
}

/// The signal after a fire: nobody is left waiting.
pub open spec fn after_fire(s: u64) -> u64 {
    0
}

/// How many waiters a fire wakes: exactly those waiting at that moment.
pub open spec fn woken_by_fire(s: u64) -> u64 {
    s
}

impl CancellationSignal {
    /// A fresh signal with no waiter.
    pub fn new() -> (s: CancellationSignal)
        ensures
            s@ == 0,
    {
        CancellationSignal { waiting: 0 }
    }

    /// How many receives are waiting on the signal.
    pub fn waiting(&self) -> (n: u64)
        ensures
            n == self@,
    {
        self.waiting
    }

    /// A receive starts waiting: it races the signal against data arrival.
    pub fn begin_wait(&mut self)
        requires
            old(self)@ < u64::MAX,
        ensures
            final(self)@ == old(self)@ + 1,
    {
        self.waiting = self.waiting + 1;
    }

    /// A waiting receive leaves the wait without being woken, because its
    /// datagram arrived first.
    pub fn end_wait(&mut self)
        requires
            old(self)@ > 0,
        ensures
            final(self)@ == old(self)@ - 1,
    {
        self.waiting = self.waiting - 1;
    }

    /// Fires the signal: every receive waiting at this moment is woken,
    /// exactly once, and none remains waiting. With no waiter this is a
    /// no-op, not an error, and the signal keeps no memory of the fire.
    pub fn fire(&mut self) -> (woken: u64)
        ensures
            woken == woken_by_fire(old(self)@),
            final(self)@ == after_fire(old(self)@),
    {
        let woken = self.waiting;
        self.waiting = 0;
        woken
    }
}

/// The reference-counted sharing model of one underlying handle: how many
/// endpoint objects alias it, and the cancellation signal they share.
pub struct SharedHandle {
    aliases: u64,
    signal: CancellationSignal,
}

/// The mathematical value of a [`SharedHandle`]: the alias count and the
/// number of receives waiting on the shared signal.
pub struct SharedHandleView {
    pub aliases: u64,
    pub waiting: u64,
}

impl View for SharedHandle {
    type V = SharedHandleView;

    closed spec fn view(&self) -> SharedHandleView {
        SharedHandleView { aliases: self.aliases, waiting: self.signal@ }
    }
}

impl SharedHandleView {
    /// Validity: a live handle has at least one alias.
    pub open spec fn wf(self) -> bool {
        self.aliases >= 1
    }
}

impl SharedHandle {
    /// A handle owned by exactly one endpoint, with no receive waiting.
    pub fn new() -> (h: SharedHandle)
        ensures
            h@.aliases == 1,
            h@.waiting == 0,
            h@.wf(),
    {
        SharedHandle { aliases: 1, signal: CancellationSignal::new() }
    }

    /// How many endpoint objects alias the handle.
    pub fn aliases(&self) -> (n: u64)
        ensures
            n == self@.aliases,
    {
        self.aliases
    }

    /// How many receives are waiting on the shared signal.
    pub fn waiting(&self) -> (n: u64)
        ensures
            n == self@.waiting,
    {
        self.signal.waiting()
    }

    /// One more endpoint object comes to alias the handle.
    pub fn clone_alias(&mut self)
        requires
            old(self)@.wf(),
            old(self)@.aliases < u64::MAX,
        ensures
            final(self)@.aliases == old(self)@.aliases + 1,
            final(self)@.waiting == old(self)@.waiting,
            final(self)@.wf(),
    {
        self.aliases = self.aliases + 1;
    }

    /// A receive on any alias starts waiting on the shared signal.
    pub fn begin_wait(&mut self)
        requires
            old(self)@.waiting < u64::MAX,
        ensures
            final(self)@.waiting == old(self)@.waiting + 1,
            final(self)@.aliases == old(self)@.aliases,
    {
        self.signal.begin_wait();
    }

    /// A waiting receive got its datagram and leaves the wait.
    pub fn end_wait(&mut self)
        requires
            old(self)@.waiting > 0,
        ensures
            final(self)@.waiting == old(self)@.waiting - 1,
            final(self)@.aliases == old(self)@.aliases,
    {
        self.signal.end_wait();
    }

    /// Any alias fires the shared signal: every receive waiting on any
    /// alias of the handle is woken; a receive on one alias can thereby be
    /// interrupted from another.
    pub fn cancel(&mut self) -> (woken: u64)
        ensures
            woken == woken_by_fire(old(self)@.waiting),
            final(self)@.waiting == after_fire(old(self)@.waiting),
            final(self)@.aliases == old(self)@.aliases,
    {
        self.signal.fire()
    }

    /// One endpoint object releases the handle. Dropping the last alias
    /// fires the signal as part of teardown and reports how many waiting
    /// receives that woke; dropping any other alias touches nothing.
    pub fn drop_alias(&mut self) -> (woken: Option<u64>)
        requires
            old(self)@.wf(),
        ensures
            final(self)@.aliases == old(self)@.aliases - 1,
            woken is Some <==> old(self)@.aliases == 1,
            woken matches Some(w) ==> w == woken_by_fire(old(self)@.waiting) && final(self)@.waiting
                == after_fire(old(self)@.waiting),
            old(self)@.aliases > 1 ==> final(self)@.waiting == old(self)@.waiting,
    {
        self.aliases = self.aliases - 1;
        if self.aliases == 0 {
            Some(self.signal.fire())
        } else {
            None
        }
    }
}

} // verus!
