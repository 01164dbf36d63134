//! The choice of which reference-counting demonstration runs.
use vstd::prelude::*;

verus! {

/// The demonstrations of shared ownership and interior mutability.
#[derive(Debug, Clone, Copy, PartialEq, Eq, Structural)]
pub enum RcDemo {
    RefCellMessenger,
    RefCellBorrowChecker,
    WeakRef,
    RefCellRcReferenceCycle,
    RefCellWeakAvoidReferenceCycle,
    Thread,
    ThreadWaitForToBeFinished,
}

/// The demonstration that runs: the one whose main thread waits for the
/// spawned thread to finish.
pub fn _ref_cell() -> (demo: RcDemo)
    ensures
        demo == RcDemo::ThreadWaitForToBeFinished,
{
    RcDemo::ThreadWaitForToBeFinished
}

} // verus!
