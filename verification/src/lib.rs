//! Process-execution core of a small single-CPU kernel: task control blocks,
//! the processor and its ready queue, per-task address spaces, and the
//! syscalls that depend on them.
//!
//! The core decides and the platform acts. State that a kernel keeps in
//! globals is passed in by `&mut`, which also is the exclusive access that
//! every change of a task needs: a second access while the first is held
//! does not compile. A clock reading is an argument, user memory arrives as
//! the buffers that a user range translates to, and every transfer of the
//! CPU is returned as a `ContextSwitch` for the platform to carry out.

pub mod config;
pub mod mm;
pub mod task;
pub mod processor;
pub mod user_buffer;
pub mod syscall;
