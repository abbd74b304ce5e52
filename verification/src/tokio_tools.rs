//! Runtime sizing values handed to the scheduler that runs the refresher
//! tasks.  Building and entering the runtime itself happens outside the
//! library.

use vstd::prelude::*;

verus! {

/// How the concurrent runtime is sized: zero threads selects a
/// current-thread scheduler.
#[derive(Debug, Clone)]
pub struct ThreadRuntime {
    pub threads: usize,
    pub stack_size: usize,
}

impl Default for ThreadRuntime {
    /// Current-thread scheduling with a three-megabyte stack.
    fn default() -> (r: ThreadRuntime)
        ensures
            r.threads == 0,
            r.stack_size == 3000000,
    {
        ThreadRuntime { threads: 0, stack_size: 3000000 }
    }
}

} // verus!
