//! The thread-state stub: the record a future scheduler would keep, as
//! plain data.

use vstd::prelude::*;

verus! {

/// What a thread is doing.
#[derive(Debug, Clone, Copy, PartialEq, Eq, Structural)]
pub enum ThreadState {
    Running,
    Ready,
    Blocking,
    Dying,
}

/// One thread's record: its stack address, identity and state.
pub struct Thread {
    /// Address of the thread's stack.
    pub stack: usize,
    /// The thread's identity.
    pub pid: u32,
    /// What the thread is doing.
    pub state: ThreadState,
}

impl Thread {
    /// A record with the given stack, identity and state.
    pub fn new(stack: usize, pid: u32, state: ThreadState) -> (r: Thread)
        ensures
            r == (Thread { stack, pid, state }),
    {
        Thread { stack, pid, state }
    }
}

} // verus!
