use vstd::prelude::*;

verus! {

/// Persistent state of a deployed contract: a single boolean cell.
///
/// Exactly one value exists per deployment; it is created by a constructor,
/// read by `get` and mutated only by `flip`.
#[derive(Clone, Copy, PartialEq, Eq, Structural, Debug)]
pub struct Identity {
    value: bool,
}

impl View for Identity {
    type V = bool;

    closed spec fn view(&self) -> bool {
        self.value
    }
}

impl Identity {
    /// Constructor: the cell starts at `init_value`.
    pub fn new(init_value: bool) -> (contract: Identity)
        ensures
            contract@ == init_value,
    {
        Identity { value: init_value }
    }

    /// Constructor: the cell starts at the boolean zero value, `false`.
    /// Indistinguishable from `new(false)`.
    pub fn default() -> (contract: Identity)
        ensures
            contract@ == false,
    {
        Identity::new(false)
    }

    /// Message: toggles the cell.
    pub fn flip(&mut self)
        ensures
            final(self)@ == !old(self)@,
    {
        self.value = !self.value;
    }

    /// Message: reads the cell without mutating anything.
    pub fn get(&self) -> (value: bool)
        ensures
            value == self@,
    {
        self.value
    }
}

} // verus!
