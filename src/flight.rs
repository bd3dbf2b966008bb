use vstd::prelude::*;

verus! {

/// Admits at most one update cycle at a time, so that a startup check and a
/// manual check never download and install over each other.
#[derive(Debug)]
pub struct SingleFlight {
    busy: bool,
}

impl SingleFlight {
    /// A cycle holds the guard.
    pub closed spec fn is_busy(&self) -> bool {
        self.busy
    }

    /// A free guard.
    pub fn new() -> (r: SingleFlight)
        ensures
            !r.is_busy(),
    {
        SingleFlight { busy: false }
    }

    /// Takes the guard if it is free: true iff no cycle held it. Either way
    /// a cycle holds it afterwards.
    pub fn try_begin(&mut self) -> (r: bool)
        ensures
            r == !old(self).is_busy(),
            final(self).is_busy(),
    {
        if self.busy {
            false
        } else {
            self.busy = true;
            true
        }
    }

    /// Gives the guard back when a cycle ends.
    pub fn end(&mut self)
        ensures
            !final(self).is_busy(),
    {
        self.busy = false;
    }

    /// Whether a cycle holds the guard now.
    pub fn busy(&self) -> (r: bool)
        ensures
            r == self.is_busy(),
    {
        self.busy
    }
}

} // verus!
