use vstd::prelude::*;

verus! {

/// The timer facility as one connection sees it: a clock reading in whole
/// seconds and the keep-alive deadline registered for the connection, if any.
pub struct Timer {
    now: u32,
    deadline: Option<u64>,
}

/// The registration that is left after `unregister(d)`: a registration under
/// another deadline is not this one and stays.
pub open spec fn after_unregister(reg: Option<u64>, d: u64) -> Option<u64> {
    if reg == Some(d) {
        None
    } else {
        reg
    }
}

impl Timer {
    pub closed spec fn clock(&self) -> u32 {
        self.now
    }

    pub closed spec fn registered(&self) -> Option<u64> {
        self.deadline
    }

    /// The connection's keep-alive flag: a registered deadline has elapsed.
    pub open spec fn expired(&self) -> bool {
        match self.registered() {
            Some(d) => self.clock() as u64 >= d,
            None => false,
        }
    }

    /// A timer whose clock reads `now` and that holds no registration.
    pub fn new(now: u32) -> (r: Self)
        ensures
            r.clock() == now,
            r.registered() is None,
    {
        Timer { now, deadline: None }
    }

    pub fn now(&self) -> (r: u32)
        ensures
            r == self.clock(),
    {
        self.now
    }

    /// Moves the clock to `now`.
    pub fn set_now(&mut self, now: u32)
        ensures
            final(self).clock() == now,
            final(self).registered() == old(self).registered(),
    {
        self.now = now;
    }

    /// The deadline registered for the connection, if any.
    pub fn deadline(&self) -> (r: Option<u64>)
        ensures
            r == self.registered(),
    {
        self.deadline
    }

    /// Whether a registered deadline has elapsed.
    pub fn is_expired(&self) -> (r: bool)
        ensures
            r == self.expired(),
    {
        match self.deadline {
            Some(d) => self.now as u64 >= d,
            None => false,
        }
    }

    /// Registers `expire` in place of `previous`: the connection holds one
    /// registration at a time.
    pub fn register(&mut self, expire: u64, previous: u64)
        ensures
            final(self).registered() == Some(expire),
            final(self).clock() == old(self).clock(),
    {
        self.deadline = Some(expire);
    }

    /// Removes the registration under `expire`; any other is left as it is.
    pub fn unregister(&mut self, expire: u64)
        ensures
            final(self).registered() == after_unregister(old(self).registered(), expire),
            final(self).clock() == old(self).clock(),
    {
        if self.deadline == Some(expire) {
            self.deadline = None;
        }
    }
}

/// Removing the same registration twice leaves what removing it once left.
pub proof fn lemma_unregister_idempotent(reg: Option<u64>, d: u64)
    ensures
        after_unregister(after_unregister(reg, d), d) == after_unregister(reg, d),
{
}

} // verus!
