//! Constants shared by the whole kernel core.
use vstd::prelude::*;

verus! {

/// Size of one page of virtual or physical memory, in bytes.
pub const PAGE_SIZE: usize = 4096;

/// Number of syscall ids that a task's accounting table has a counter for.
pub const MAX_SYSCALL_NUM: usize = 500;

} // verus!
