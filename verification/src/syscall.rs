//! The syscalls that depend on scheduler and memory state.
//!
//! Every syscall here works on the processor it is given and on plain
//! values: the clock reading is an argument, and a user pointer arrives as
//! the list of buffers that its range translates to.
use vstd::prelude::*;
use vstd::bytes::{
    lemma_auto_spec_u32_to_from_le_bytes, lemma_auto_spec_u64_to_from_le_bytes,
    spec_u32_to_le_bytes, spec_u64_from_le_bytes, spec_u64_to_le_bytes, u32_to_le_bytes,
    u64_to_le_bytes,
};
use crate::config::{MAX_SYSCALL_NUM, PAGE_SIZE};
use crate::mm::{page_ceil, page_floor, page_range, range_pages};
use crate::processor::{
    change_program_brk, exit_current_and_run_next, permission_of, suspend_current_and_run_next,
    task_mmap, task_munmap, update_syscall_times, ContextSwitch, ContextSlot, Processor,
};
use crate::task::{brk_allowed, brk_target, counted, TaskControlBlock, TaskManager, TaskStatus};
use crate::user_buffer::{copy_to_buffers, offset_of, written};

verus! {

/// A point in time: whole seconds, and the microseconds beyond them.
#[derive(Clone, Copy, Debug, PartialEq, Eq, Structural)]
pub struct TimeVal {
    pub sec: usize,
    pub usec: usize,
}

/// What a task may learn about itself.
#[derive(Clone, Copy, Debug)]
pub struct TaskInfo {
    /// Where the task stands in its life cycle.
    pub status: TaskStatus,
    /// How often the task has invoked each syscall.
    pub syscall_times: [u32; MAX_SYSCALL_NUM],
    /// Milliseconds since the task was first dispatched.
    pub time: usize,
}

/// Size in bytes of a time record in user memory.
pub const TIME_VAL_SIZE: usize = 16;

/// Size in bytes of an info record in user memory.
pub const TASK_INFO_SIZE: usize = 2016;

/// The time record for a clock reading of `us` microseconds.
pub open spec fn time_val_of(us: usize) -> TimeVal {
    TimeVal { sec: us / 1_000_000, usec: us % 1_000_000 }
}

/// The bytes of a time record: seconds, then microseconds, each as eight
/// bytes, least significant first.
pub open spec fn time_val_bytes(tv: TimeVal) -> Seq<u8> {
    spec_u64_to_le_bytes(tv.sec as u64) + spec_u64_to_le_bytes(tv.usec as u64)
}

/// The number under which a status is written into an info record.
pub open spec fn status_tag(status: TaskStatus) -> u32 {
    match status {
        TaskStatus::Ready => 0,
        TaskStatus::Running => 1,
        TaskStatus::Exited => 2,
    }
}

/// The bytes of the first `n` counters, four bytes each, least significant
/// first.
pub open spec fn counts_bytes(counts: Seq<u32>, n: nat) -> Seq<u8>
    decreases n,
{
    if n == 0 {
        Seq::empty()
    } else {
        counts_bytes(counts, (n - 1) as nat) + spec_u32_to_le_bytes(counts[n - 1])
    }
}

/// The bytes of an info record: the status tag in four bytes, the counter
/// table, four zero bytes that align the last field, and the elapsed time in
/// eight bytes; every number least significant byte first.
pub open spec fn task_info_bytes(info: TaskInfo) -> Seq<u8> {
    spec_u32_to_le_bytes(status_tag(info.status)) + counts_bytes(
        info.syscall_times@,
        MAX_SYSCALL_NUM as nat,
    ) + seq![0u8, 0u8, 0u8, 0u8] + spec_u64_to_le_bytes(info.time as u64)
}

/// What `task` learns about itself at time `now_ms`.
pub open spec fn task_info_of(task: TaskControlBlock, now_ms: usize) -> TaskInfo {
    TaskInfo {
        status: task.task_status,
        syscall_times: task.syscall_times,
        time: (now_ms - task.start_time.unwrap()) as usize,
    }
}

/// The permission bits name at least one of read, write and execute, and
/// nothing beyond those three.
pub open spec fn prot_valid(prot: usize) -> bool {
    prot / 8 == 0 && prot % 8 != 0
}

/// The counter bytes are four per counter.
pub proof fn lemma_counts_bytes_len(counts: Seq<u32>, n: nat)
    ensures
        counts_bytes(counts, n).len() == 4 * n,
    decreases n,
{
    lemma_auto_spec_u32_to_from_le_bytes();
    if n > 0 {
        lemma_counts_bytes_len(counts, (n - 1) as nat);
    }
}

/// A time record's bytes are sixteen, and reading the two halves back as
/// numbers gives the seconds and the microseconds that were written.
pub proof fn lemma_time_val_round_trip(tv: TimeVal)
    ensures
        time_val_bytes(tv).len() == TIME_VAL_SIZE,
        spec_u64_from_le_bytes(time_val_bytes(tv).subrange(0, 8)) == tv.sec,
        spec_u64_from_le_bytes(time_val_bytes(tv).subrange(8, 16)) == tv.usec,
{
    lemma_auto_spec_u64_to_from_le_bytes();
    let a = spec_u64_to_le_bytes(tv.sec as u64);
    let b = spec_u64_to_le_bytes(tv.usec as u64);
    assert((a + b).subrange(0, 8) =~= a);
    assert((a + b).subrange(8, 16) =~= b);
}

/// With a clock that does not run backwards, the elapsed time that a task
/// is told does not shrink from one query to the next.
pub proof fn lemma_elapsed_monotonic(task: TaskControlBlock, earlier: usize, later: usize)
    requires
        task.start_time is Some,
        task.start_time.unwrap() <= earlier <= later,
    ensures
        task_info_of(task, earlier).time <= task_info_of(task, later).time,
        task_info_of(task, earlier).time == earlier - task.start_time.unwrap(),
{
}

impl TimeVal {
    /// The record as it is laid out in user memory.
    pub fn to_bytes(&self) -> (bytes: Vec<u8>)
        ensures
            bytes@ == time_val_bytes(*self),
            bytes@.len() == TIME_VAL_SIZE,
    {
        let mut bytes = u64_to_le_bytes(self.sec as u64);
        let mut low = u64_to_le_bytes(self.usec as u64);
        bytes.append(&mut low);
        bytes
    }
}

impl TaskInfo {
    /// The record as it is laid out in user memory.
    pub fn to_bytes(&self) -> (bytes: Vec<u8>)
        ensures
            bytes@ == task_info_bytes(*self),
            bytes@.len() == TASK_INFO_SIZE,
    {
        let tag: u32 = match self.status {
            TaskStatus::Ready => 0,
            TaskStatus::Running => 1,
            TaskStatus::Exited => 2,
        };
        let mut bytes = u32_to_le_bytes(tag);
        let ghost head = bytes@;
        let mut i: usize = 0;
        while i < MAX_SYSCALL_NUM
            invariant
                i <= MAX_SYSCALL_NUM,
                head.len() == 4,
                bytes@ == head + counts_bytes(self.syscall_times@, i as nat),
            decreases MAX_SYSCALL_NUM - i,
        {
            let mut word = u32_to_le_bytes(self.syscall_times[i]);
            bytes.append(&mut word);
            proof {
                assert(bytes@ =~= head + counts_bytes(self.syscall_times@, (i + 1) as nat));
            }
            i += 1;
        }
        bytes.push(0);
        bytes.push(0);
        bytes.push(0);
        bytes.push(0);
        let mut time = u64_to_le_bytes(self.time as u64);
        bytes.append(&mut time);
        proof {
            lemma_counts_bytes_len(self.syscall_times@, MAX_SYSCALL_NUM as nat);
            assert(bytes@ =~= task_info_bytes(*self));
        }
        bytes
    }
}

/// The current task ends with `exit_code`. The processor is left with no
/// task, nothing is queued, and the hand-over that is returned saves nothing
/// and resumes the idle control flow: the task never runs again.
pub fn sys_exit(processor: &mut Processor, exit_code: i32) -> (res: ContextSwitch)
    requires
        old(processor).has_current(),
        old(processor).wf(),
    ensures
        final(processor).current is None,
        final(processor).idle_task_cx == old(processor).idle_task_cx,
        res == (ContextSwitch {
            save_into: ContextSlot::Discard,
            resume: old(processor).idle_task_cx,
        }),
{
    let (_task, switch) = exit_current_and_run_next(processor, exit_code);
    switch
}

/// The current task gives up the CPU: it goes, Ready, to the tail of the
/// queue and the processor is left with no task. Returns the 0 that the task
/// sees when it runs again, and the hand-over to the idle control flow.
pub fn sys_yield(processor: &mut Processor, manager: &mut TaskManager) -> (res: (
    isize,
    ContextSwitch,
))
    requires
        old(processor).has_current(),
        old(processor).wf(),
        old(manager).wf(),
    ensures
        res.0 == 0,
        res.1 == (ContextSwitch {
            save_into: ContextSlot::Task(old(processor).current.unwrap().pid),
            resume: old(processor).idle_task_cx,
        }),
        final(processor).current is None,
        final(processor).idle_task_cx == old(processor).idle_task_cx,
        final(manager)@ == old(manager)@.push(old(processor).current.unwrap().suspended()),
        final(manager).wf(),
{
    let switch = suspend_current_and_run_next(processor, manager);
    (0, switch)
}

/// Writes the time record for a clock reading of `now_us` microseconds into
/// `buffers`, the pieces of user memory that the record's place translates
/// to, and returns 0.
pub fn sys_get_time(now_us: usize, buffers: &mut Vec<Vec<u8>>, _tz: usize) -> (res: isize)
    ensures
        res == 0,
        final(buffers)@.len() == old(buffers)@.len(),
        forall|i: int|
            0 <= i < old(buffers)@.len() ==> (#[trigger] final(buffers)@[i])@ == written(
                old(buffers)@[i]@,
                time_val_bytes(time_val_of(now_us)),
                offset_of(old(buffers)@, i),
            ),
{
    let time = TimeVal { sec: now_us / 1_000_000, usec: now_us % 1_000_000 };
    let bytes = time.to_bytes();
    copy_to_buffers(buffers, &bytes);
    0
}

/// Writes the info record of the current task at a clock reading of `now_ms`
/// milliseconds into `buffers`, the pieces of user memory that the record's
/// place translates to, and returns 0.
pub fn sys_task_info(processor: &Processor, now_ms: usize, buffers: &mut Vec<Vec<u8>>) -> (res:
    isize)
    requires
        processor.has_current(),
        processor.current.unwrap().start_time is Some,
        processor.current.unwrap().start_time.unwrap() <= now_ms,
    ensures
        res == 0,
        final(buffers)@.len() == old(buffers)@.len(),
        forall|i: int|
            0 <= i < old(buffers)@.len() ==> (#[trigger] final(buffers)@[i])@ == written(
                old(buffers)@[i]@,
                task_info_bytes(task_info_of(processor.current.unwrap(), now_ms)),
                offset_of(old(buffers)@, i),
            ),
{
    let task = processor.current().unwrap();
    let info = TaskInfo {
        status: task.task_status,
        syscall_times: task.syscall_times,
        time: now_ms - task.start_time.unwrap(),
    };
    let bytes = info.to_bytes();
    copy_to_buffers(buffers, &bytes);
    0
}

/// Maps the pages that cover `len` bytes from `start` into the current
/// task's address space. Returns 0 when done. Returns -1, with nothing
/// changed, when `start` is not page-aligned, when `prot` is not valid, when
/// the range runs past the end of the address space, or when one of its
/// pages is mapped already.
pub fn sys_mmap(processor: &mut Processor, start: usize, len: usize, prot: usize) -> (res: isize)
    requires
        old(processor).has_current(),
        old(processor).wf(),
    ensures
        final(processor).wf(),
        final(processor).has_current(),
        res == 0 || res == -1,
        res == 0 <==> start % PAGE_SIZE == 0 && prot_valid(prot) && start + len <= usize::MAX
            && old(processor).current.unwrap().memory_set.range_free(
            page_floor(start as int),
            page_ceil(start + len),
        ),
        res == 0 ==> final(processor).current.unwrap().memory_set@ == old(
            processor).current.unwrap().memory_set@.union_prefer_right(
            range_pages(page_floor(start as int), page_ceil(start + len), permission_of(prot)),
        ),
        res != 0 ==> *final(processor) == *old(processor),
        final(processor).idle_task_cx == old(processor).idle_task_cx,
        final(processor).current.unwrap() == (TaskControlBlock {
            memory_set: final(processor).current.unwrap().memory_set,
            ..old(processor).current.unwrap()
        }),
{
    if start % PAGE_SIZE != 0 {
        return -1;
    }
    if prot / 8 != 0 {
        return -1;
    }
    if prot % 8 == 0 {
        return -1;
    }
    task_mmap(processor, start, len, prot)
}

/// Unmaps the pages that cover `len` bytes from `start` from the current
/// task's address space. Returns 0 when done. Returns -1, with nothing
/// changed, when `start` is not page-aligned, when the range runs past the
/// end of the address space, or when one of its pages is not mapped.
pub fn sys_munmap(processor: &mut Processor, start: usize, len: usize) -> (res: isize)
    requires
        old(processor).has_current(),
        old(processor).wf(),
    ensures
        final(processor).wf(),
        final(processor).has_current(),
        res == 0 || res == -1,
        res == 0 <==> start % PAGE_SIZE == 0 && start + len <= usize::MAX && old(
            processor).current.unwrap().memory_set.range_mapped(
            page_floor(start as int),
            page_ceil(start + len),
        ),
        res == 0 ==> final(processor).current.unwrap().memory_set@ == old(
            processor).current.unwrap().memory_set@.remove_keys(
            page_range(page_floor(start as int), page_ceil(start + len)),
        ),
        res != 0 ==> *final(processor) == *old(processor),
        final(processor).idle_task_cx == old(processor).idle_task_cx,
        final(processor).current.unwrap() == (TaskControlBlock {
            memory_set: final(processor).current.unwrap().memory_set,
            ..old(processor).current.unwrap()
        }),
{
    if start % PAGE_SIZE != 0 {
        return -1;
    }
    task_munmap(processor, start, len)
}

/// Moves the current task's program break by `size` bytes and returns the
/// break as it was before. Returns -1, with nothing changed, when the new
/// break would lie below the bottom of the heap or above the largest address
/// that can be returned.
pub fn sys_sbrk(processor: &mut Processor, size: i32) -> (res: isize)
    requires
        old(processor).has_current(),
        old(processor).wf(),
    ensures
        final(processor).wf(),
        brk_allowed(
            old(processor).current.unwrap().heap_bottom,
            brk_target(old(processor).current.unwrap().program_brk, size),
        ) ==> res == old(processor).current.unwrap().program_brk && *final(processor) == (
        Processor {
            current: Some(
                TaskControlBlock {
                    program_brk: brk_target(old(processor).current.unwrap().program_brk, size) as usize,
                    ..old(processor).current.unwrap()
                },
            ),
            ..*old(processor)
        }),
        !brk_allowed(
            old(processor).current.unwrap().heap_bottom,
            brk_target(old(processor).current.unwrap().program_brk, size),
        ) ==> res == -1 && *final(processor) == *old(processor),
{
    if let Some(old_brk) = change_program_brk(processor, size) {
        old_brk as isize
    } else {
        -1
    }
}

/// Syscall id of `exit`.
pub const SYSCALL_EXIT: usize = 93;

/// Syscall id of `yield`.
pub const SYSCALL_YIELD: usize = 124;

/// Syscall id of `get_time`.
pub const SYSCALL_GET_TIME: usize = 169;

/// Syscall id of `sbrk`.
pub const SYSCALL_SBRK: usize = 214;

/// Syscall id of `munmap`.
pub const SYSCALL_MUNMAP: usize = 215;

/// Syscall id of `mmap`.
pub const SYSCALL_MMAP: usize = 222;

/// Syscall id of `task_info`.
pub const SYSCALL_TASK_INFO: usize = 410;

/// A syscall with its arguments. For the two that write a record, the user
/// pointer has been translated already and the buffers are handed over
/// beside the call.
#[derive(Clone, Copy, Debug, PartialEq, Eq, Structural)]
pub enum Syscall {
    Exit(i32),
    Yield,
    GetTime,
    TaskInfo,
    Mmap(usize, usize, usize),
    Munmap(usize, usize),
    Sbrk(i32),
}

/// How a syscall ends for the task that made it.
#[derive(Clone, Copy, Debug, PartialEq, Eq)]
pub enum SyscallOutcome {
    /// The task goes on at once, with this result.
    Return(isize),
    /// The task gave up the CPU; it gets this result when it runs again.
    Yielded(isize, ContextSwitch),
    /// The task is over.
    Exited(ContextSwitch),
}

impl Syscall {
    /// The id under which the call is counted.
    pub open spec fn spec_id(self) -> usize {
        match self {
            Syscall::Exit(_) => SYSCALL_EXIT,
            Syscall::Yield => SYSCALL_YIELD,
            Syscall::GetTime => SYSCALL_GET_TIME,
            Syscall::TaskInfo => SYSCALL_TASK_INFO,
            Syscall::Mmap(_, _, _) => SYSCALL_MMAP,
            Syscall::Munmap(_, _) => SYSCALL_MUNMAP,
            Syscall::Sbrk(_) => SYSCALL_SBRK,
        }
    }

    /// The id under which the call is counted.
    pub fn id(&self) -> (id: usize)
        ensures
            id == self.spec_id(),
            id < MAX_SYSCALL_NUM,
    {
        match self {
            Syscall::Exit(_) => SYSCALL_EXIT,
            Syscall::Yield => SYSCALL_YIELD,
            Syscall::GetTime => SYSCALL_GET_TIME,
            Syscall::TaskInfo => SYSCALL_TASK_INFO,
            Syscall::Mmap(_, _, _) => SYSCALL_MMAP,
            Syscall::Munmap(_, _) => SYSCALL_MUNMAP,
            Syscall::Sbrk(_) => SYSCALL_SBRK,
        }
    }
}

/// The task `before` with the one syscall `id` more in its counters, which
/// are those of `after`.
pub open spec fn counted_task(before: TaskControlBlock, after: TaskControlBlock, id: usize) -> TaskControlBlock
    recommends
        after.syscall_times@ == counted(before.syscall_times@, id as int),
{
    TaskControlBlock { syscall_times: after.syscall_times, ..before }
}

/// Handles one syscall of the current task. The call is counted first and
/// handled second, so a call that fails is counted like one that succeeds,
/// and an info record tells of the very call that asked for it. `now_us` and
/// `now_ms` are the clock readings at entry.
pub fn syscall(
    processor: &mut Processor,
    manager: &mut TaskManager,
    call: Syscall,
    now_us: usize,
    now_ms: usize,
    buffers: &mut Vec<Vec<u8>>,
) -> (out: SyscallOutcome)
    requires
        old(processor).has_current(),
        old(processor).wf(),
        old(manager).wf(),
        old(processor).current.unwrap().syscall_times[call.spec_id() as int] < u32::MAX,
        call == Syscall::TaskInfo ==> old(processor).current.unwrap().start_time.unwrap() <= now_ms,
    ensures
        final(processor).wf(),
        final(manager).wf(),
        final(processor).idle_task_cx == old(processor).idle_task_cx,
        match call {
            Syscall::Exit(_) => {
                &&& out == SyscallOutcome::Exited(
                    ContextSwitch {
                        save_into: ContextSlot::Discard,
                        resume: old(processor).idle_task_cx,
                    },
                )
                &&& final(processor).current is None
                &&& final(manager)@ == old(manager)@
                &&& final(buffers)@ == old(buffers)@
            },
            Syscall::Yield => {
                &&& out == SyscallOutcome::Yielded(
                    0,
                    ContextSwitch {
                        save_into: ContextSlot::Task(old(processor).current.unwrap().pid),
                        resume: old(processor).idle_task_cx,
                    },
                )
                &&& final(processor).current is None
                &&& final(manager)@.len() == old(manager)@.len() + 1
                &&& final(manager)@.drop_last() == old(manager)@
                &&& final(manager)@.last().syscall_times@ == counted(
                    old(processor).current.unwrap().syscall_times@,
                    SYSCALL_YIELD as int,
                )
                &&& final(manager)@.last() == counted_task(
                    old(processor).current.unwrap(),
                    final(manager)@.last(),
                    SYSCALL_YIELD,
                ).suspended()
                &&& final(buffers)@ == old(buffers)@
            },
            _ => {
                &&& out is Return
                &&& final(processor).has_current()
                &&& final(manager)@ == old(manager)@
                &&& final(processor).current.unwrap().syscall_times@ == counted(
                    old(processor).current.unwrap().syscall_times@,
                    call.spec_id() as int,
                )
            },
        },
        call == Syscall::GetTime ==> {
            &&& out == SyscallOutcome::Return(0)
            &&& final(processor).current.unwrap() == counted_task(
                old(processor).current.unwrap(),
                final(processor).current.unwrap(),
                SYSCALL_GET_TIME,
            )
            &&& final(buffers)@.len() == old(buffers)@.len()
            &&& forall|i: int|
                0 <= i < old(buffers)@.len() ==> (#[trigger] final(buffers)@[i])@ == written(
                    old(buffers)@[i]@,
                    time_val_bytes(time_val_of(now_us)),
                    offset_of(old(buffers)@, i),
                )
        },
        call == Syscall::TaskInfo ==> {
            &&& out == SyscallOutcome::Return(0)
            &&& final(processor).current.unwrap() == counted_task(
                old(processor).current.unwrap(),
                final(processor).current.unwrap(),
                SYSCALL_TASK_INFO,
            )
            &&& final(buffers)@.len() == old(buffers)@.len()
            &&& forall|i: int|
                0 <= i < old(buffers)@.len() ==> (#[trigger] final(buffers)@[i])@ == written(
                    old(buffers)@[i]@,
                    task_info_bytes(task_info_of(final(processor).current.unwrap(), now_ms)),
                    offset_of(old(buffers)@, i),
                )
        },
        match call {
            Syscall::Mmap(start, len, prot) => {
                let before = old(processor).current.unwrap();
                let after = final(processor).current.unwrap();
                &&& final(buffers)@ == old(buffers)@
                &&& out == SyscallOutcome::Return(0) || out == SyscallOutcome::Return(-1isize)
                &&& out == SyscallOutcome::Return(0) <==> start % PAGE_SIZE == 0 && prot_valid(prot)
                    && start + len <= usize::MAX && before.memory_set.range_free(
                    page_floor(start as int),
                    page_ceil(start + len),
                )
                &&& out == SyscallOutcome::Return(0) ==> after.memory_set@
                    == before.memory_set@.union_prefer_right(
                    range_pages(page_floor(start as int), page_ceil(start + len), permission_of(prot)),
                )
                &&& out != SyscallOutcome::Return(0) ==> after.memory_set == before.memory_set
                &&& after == (TaskControlBlock {
                    memory_set: after.memory_set,
                    ..counted_task(before, after, SYSCALL_MMAP)
                })
            },
            Syscall::Munmap(start, len) => {
                let before = old(processor).current.unwrap();
                let after = final(processor).current.unwrap();
                &&& final(buffers)@ == old(buffers)@
                &&& out == SyscallOutcome::Return(0) || out == SyscallOutcome::Return(-1isize)
                &&& out == SyscallOutcome::Return(0) <==> start % PAGE_SIZE == 0 && start + len
                    <= usize::MAX && before.memory_set.range_mapped(
                    page_floor(start as int),
                    page_ceil(start + len),
                )
                &&& out == SyscallOutcome::Return(0) ==> after.memory_set@
                    == before.memory_set@.remove_keys(
                    page_range(page_floor(start as int), page_ceil(start + len)),
                )
                &&& out != SyscallOutcome::Return(0) ==> after.memory_set == before.memory_set
                &&& after == (TaskControlBlock {
                    memory_set: after.memory_set,
                    ..counted_task(before, after, SYSCALL_MUNMAP)
                })
            },
            Syscall::Sbrk(size) => {
                let before = old(processor).current.unwrap();
                let after = final(processor).current.unwrap();
                let allowed = brk_allowed(before.heap_bottom, brk_target(before.program_brk, size));
                &&& final(buffers)@ == old(buffers)@
                &&& allowed ==> out == SyscallOutcome::Return(before.program_brk as isize) && after
                    == (TaskControlBlock {
                    program_brk: brk_target(before.program_brk, size) as usize,
                    ..counted_task(before, after, SYSCALL_SBRK)
                })
                &&& !allowed ==> out == SyscallOutcome::Return(-1isize) && after == counted_task(
                    before,
                    after,
                    SYSCALL_SBRK,
                )
            },
            _ => true,
        },
{
    update_syscall_times(processor, call.id());
    match call {
        Syscall::Exit(code) => SyscallOutcome::Exited(sys_exit(processor, code)),
        Syscall::Yield => {
            let (ret, switch) = sys_yield(processor, manager);
            SyscallOutcome::Yielded(ret, switch)
        },
        Syscall::GetTime => SyscallOutcome::Return(sys_get_time(now_us, buffers, 0)),
        Syscall::TaskInfo => SyscallOutcome::Return(sys_task_info(processor, now_ms, buffers)),
        Syscall::Mmap(start, len, prot) => SyscallOutcome::Return(
            sys_mmap(processor, start, len, prot),
        ),
        Syscall::Munmap(start, len) => SyscallOutcome::Return(sys_munmap(processor, start, len)),
        Syscall::Sbrk(size) => SyscallOutcome::Return(sys_sbrk(processor, size)),
    }
}

} // verus!
