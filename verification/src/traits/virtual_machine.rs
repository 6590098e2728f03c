use vstd::prelude::*;

verus! {

/// A machine that runs a language's code in interpreted mode.
pub trait VirtualMachine: Sized {
    /// Whether the machine is as it is before it runs anything.
    spec fn is_initial(&self) -> bool;

    /// A machine that has run nothing yet.
    fn new() -> (r: Self)
        ensures
            r.is_initial(),
    ;
}

} // verus!
