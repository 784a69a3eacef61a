use vstd::prelude::*;

verus! {

/// A boolean that can be raised once and never lowered again.
pub struct Latch {
    value: bool,
}

impl Latch {
    pub closed spec fn view(&self) -> bool {
        self.value
    }

    pub fn new(value: bool) -> (r: Latch)
        ensures
            r@ == value,
    {
        Latch { value }
    }

    pub fn get(&self) -> (r: bool)
        ensures
            r == self@,
    {
        self.value
    }

    /// Raises the latch; returns whether this call changed it.
    pub fn set(&mut self) -> (changed: bool)
        ensures
            final(self)@,
            changed == !old(self)@,
    {
        let changed = !self.value;
        self.value = true;
        changed
    }
}

} // verus!
