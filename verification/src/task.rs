//! Task control blocks, their life cycle, and the queue of runnable tasks.
use vstd::prelude::*;
use std::collections::VecDeque;
use crate::config::MAX_SYSCALL_NUM;
use crate::mm::MemorySet;

verus! {

/// Where a task stands in its life cycle.
#[derive(Clone, Copy, Debug, PartialEq, Eq, Structural)]
pub enum TaskStatus {
    Ready,
    Running,
    Exited,
}

/// Saved kernel-mode machine context of a suspended control flow: the return
/// address, the stack pointer and the callee-saved registers.
#[derive(Clone, Copy, Debug, PartialEq, Eq)]
pub struct TaskContext {
    pub ra: usize,
    pub sp: usize,
    pub s: [usize; 12],
}

impl TaskContext {
    /// Every register is zero.
    pub open spec fn is_zero(self) -> bool {
        &&& self.ra == 0
        &&& self.sp == 0
        &&& forall|i: int| 0 <= i < 12 ==> self.s[i] == 0
    }

    /// A context with every register zero.
    pub fn zero_init() -> (cx: TaskContext)
        ensures
            cx.is_zero(),
    {
        TaskContext { ra: 0, sp: 0, s: [0usize; 12] }
    }
}

/// Saved user-mode register snapshot of a task.
#[derive(Clone, Copy, Debug, PartialEq, Eq)]
pub struct TrapContext {
    pub x: [usize; 32],
    pub sstatus: usize,
    pub sepc: usize,
}

impl TrapContext {
    /// The snapshot starts execution at `entry` with the stack pointer
    /// register, the third of the general registers, set to `sp`, and holds
    /// zero everywhere else.
    pub open spec fn is_app_init(self, entry: usize, sp: usize) -> bool {
        &&& self.sepc == entry
        &&& self.sstatus == 0
        &&& self.x[2] == sp
        &&& forall|i: int| 0 <= i < 32 && i != 2 ==> self.x[i] == 0
    }

    /// The snapshot from which a task first enters user mode.
    pub fn app_init_context(entry: usize, sp: usize) -> (cx: TrapContext)
        ensures
            cx.is_app_init(entry, sp),
    {
        let mut x = [0usize; 32];
        x[2] = sp;
        TrapContext { x, sstatus: 0, sepc: entry }
    }
}

/// Everything the kernel keeps about one task.
#[derive(Debug)]
pub struct TaskControlBlock {
    pub pid: usize,
    pub task_status: TaskStatus,
    pub task_cx: TaskContext,
    pub trap_cx: TrapContext,
    pub memory_set: MemorySet,
    pub syscall_times: [u32; MAX_SYSCALL_NUM],
    pub start_time: Option<usize>,
    pub heap_bottom: usize,
    pub program_brk: usize,
    pub user_token: usize,
    pub exit_code: i32,
}

/// The counter table after one more invocation of syscall `id`.
pub open spec fn counted(counts: Seq<u32>, id: int) -> Seq<u32> {
    counts.update(id, (counts[id] + 1) as u32)
}

/// The counter table after `n` more invocations of syscall `id`.
pub open spec fn counted_n(counts: Seq<u32>, id: int, n: nat) -> Seq<u32>
    decreases n,
{
    if n == 0 {
        counts
    } else {
        counted(counted_n(counts, id, (n - 1) as nat), id)
    }
}

/// After `n` invocations of syscall `id` on a table whose counter for `id`
/// has room for them, that counter has grown by exactly `n`, the table has
/// kept its length, and every other counter is what it was.
pub proof fn lemma_counted_n(counts: Seq<u32>, id: int, n: nat)
    requires
        0 <= id < counts.len(),
        counts[id] + n <= u32::MAX,
    ensures
        counted_n(counts, id, n).len() == counts.len(),
        counted_n(counts, id, n)[id] == counts[id] + n,
        forall|j: int| 0 <= j < counts.len() && j != id ==> counted_n(counts, id, n)[j] == counts[j],
    decreases n,
{
    if n > 0 {
        lemma_counted_n(counts, id, (n - 1) as nat);
    }
}

/// The break that a request to move it by `size` bytes asks for.
pub open spec fn brk_target(brk: usize, size: i32) -> int {
    brk + size
}

/// A break may lie anywhere from the bottom of the heap up to the largest
/// value that a syscall can return as a success.
pub open spec fn brk_allowed(heap_bottom: usize, target: int) -> bool {
    heap_bottom <= target <= isize::MAX
}

/// Growing the break by `d` bytes and then shrinking it by `d` bytes is
/// allowed whenever the growth is, and gives back the break it started from.
pub proof fn lemma_brk_round_trip(heap_bottom: usize, brk: usize, d: i32)
    requires
        heap_bottom <= brk,
        0 <= d,
        brk_allowed(heap_bottom, brk_target(brk, d)),
    ensures
        brk_allowed(heap_bottom, brk_target(brk_target(brk, d) as usize, (-d) as i32)),
        brk_target(brk_target(brk, d) as usize, (-d) as i32) == brk,
        brk_target(brk, 0) == brk,
{
}

impl TaskControlBlock {
    /// The address space is well-formed and the break lies in the heap.
    pub open spec fn wf(&self) -> bool {
        &&& self.memory_set.wf()
        &&& brk_allowed(self.heap_bottom, self.program_brk as int)
    }

    /// A new task over `memory_set`: ready to run, with no syscall counted,
    /// no start time yet, and an empty heap at `heap_bottom`.
    pub fn new(
        pid: usize,
        memory_set: MemorySet,
        user_token: usize,
        entry: usize,
        user_sp: usize,
        heap_bottom: usize,
    ) -> (task: TaskControlBlock)
        requires
            memory_set.wf(),
            heap_bottom <= isize::MAX,
        ensures
            task.wf(),
            task.pid == pid,
            task.task_status == TaskStatus::Ready,
            task.memory_set == memory_set,
            task.user_token == user_token,
            task.start_time is None,
            task.heap_bottom == heap_bottom,
            task.program_brk == heap_bottom,
            task.exit_code == 0,
            task.task_cx.is_zero(),
            task.trap_cx.is_app_init(entry, user_sp),
            task.syscall_times@.len() == MAX_SYSCALL_NUM,
            forall|i: int| 0 <= i < MAX_SYSCALL_NUM ==> task.syscall_times[i] == 0,
    {
        TaskControlBlock {
            pid,
            task_status: TaskStatus::Ready,
            task_cx: TaskContext::zero_init(),
            trap_cx: TrapContext::app_init_context(entry, user_sp),
            memory_set,
            syscall_times: [0u32; MAX_SYSCALL_NUM],
            start_time: None,
            heap_bottom,
            program_brk: heap_bottom,
            user_token,
            exit_code: 0,
        }
    }

    /// The identifier of the task's page table.
    pub fn get_user_token(&self) -> (token: usize)
        ensures
            token == self.user_token,
    {
        self.user_token
    }

    /// The task as `mark_running` leaves it when dispatched at time `now`.
    pub open spec fn dispatched(self, now: usize) -> TaskControlBlock {
        TaskControlBlock {
            task_status: TaskStatus::Running,
            start_time: if self.start_time is Some {
                self.start_time
            } else {
                Some(now)
            },
            ..self
        }
    }

    /// Ready to Running. The first dispatch also records `now` as the task's
    /// start time; later ones leave the start time alone.
    pub fn mark_running(&mut self, now: usize)
        requires
            old(self).task_status == TaskStatus::Ready,
        ensures
            *final(self) == old(self).dispatched(now),
    {
        self.task_status = TaskStatus::Running;
        if self.start_time.is_none() {
            self.start_time = Some(now);
        }
    }

    /// The task as `mark_ready` leaves it.
    pub open spec fn suspended(self) -> TaskControlBlock {
        TaskControlBlock { task_status: TaskStatus::Ready, ..self }
    }

    /// Running to Ready.
    pub fn mark_ready(&mut self)
        requires
            old(self).task_status == TaskStatus::Running,
        ensures
            *final(self) == old(self).suspended(),
    {
        self.task_status = TaskStatus::Ready;
    }

    /// Running to Exited: records the exit code and gives up every page of
    /// the address space. Everything else stays.
    pub fn mark_exited(&mut self, exit_code: i32)
        requires
            old(self).task_status == TaskStatus::Running,
        ensures
            final(self).memory_set@ == Map::<int, crate::mm::MapPermission>::empty(),
            final(self).memory_set.wf(),
            *final(self) == (TaskControlBlock {
                task_status: TaskStatus::Exited,
                exit_code,
                memory_set: final(self).memory_set,
                ..*old(self)
            }),
    {
        self.task_status = TaskStatus::Exited;
        self.exit_code = exit_code;
        self.memory_set = MemorySet::new_bare();
    }

    /// Counts one more invocation of syscall `syscall_id`.
    pub fn count_syscall(&mut self, syscall_id: usize)
        requires
            syscall_id < MAX_SYSCALL_NUM,
            old(self).syscall_times[syscall_id as int] < u32::MAX,
        ensures
            final(self).syscall_times@ == counted(old(self).syscall_times@, syscall_id as int),
            *final(self) == (TaskControlBlock {
                syscall_times: final(self).syscall_times,
                ..*old(self)
            }),
    {
        let v: u32 = self.syscall_times[syscall_id];
        self.syscall_times[syscall_id] = v + 1;
    }

    /// Moves the program break by `size` bytes. Returns the break as it was
    /// before, or `None` with nothing changed when the new break would lie
    /// below the bottom of the heap or above the largest address that a
    /// syscall can return.
    pub fn change_program_brk(&mut self, size: i32) -> (res: Option<usize>)
        ensures
            res is Some <==> brk_allowed(
                old(self).heap_bottom,
                brk_target(old(self).program_brk, size),
            ),
            res is Some ==> res == Some(old(self).program_brk) && *final(self) == (
            TaskControlBlock {
                program_brk: brk_target(old(self).program_brk, size) as usize,
                ..*old(self)
            }),
            res is None ==> *final(self) == *old(self),
    {
        let old_brk: usize = self.program_brk;
        let target: i128 = old_brk as i128 + size as i128;
        if target < self.heap_bottom as i128 || target > isize::MAX as i128 {
            return None;
        }
        self.program_brk = target as usize;
        Some(old_brk)
    }
}

/// The queue of tasks that wait for the processor, first come first served.
pub struct TaskManager {
    pub ready_queue: VecDeque<TaskControlBlock>,
}

impl View for TaskManager {
    type V = Seq<TaskControlBlock>;

    /// The waiting tasks, the next one to run first.
    open spec fn view(&self) -> Seq<TaskControlBlock> {
        self.ready_queue@
    }
}

impl TaskManager {
    /// Every waiting task is well-formed and Ready.
    pub open spec fn wf(&self) -> bool {
        forall|i: int|
            0 <= i < self@.len() ==> (#[trigger] self@[i]).wf() && self@[i].task_status
                == TaskStatus::Ready
    }

    /// An empty queue.
    pub fn new() -> (m: TaskManager)
        ensures
            m@ == Seq::<TaskControlBlock>::empty(),
            m.wf(),
    {
        TaskManager { ready_queue: VecDeque::new() }
    }

    /// Puts `task` at the tail of the queue.
    pub fn add(&mut self, task: TaskControlBlock)
        ensures
            final(self)@ == old(self)@.push(task),
            old(self).wf() && task.wf() && task.task_status == TaskStatus::Ready ==> final(self).wf(),
    {
        self.ready_queue.push_back(task);
    }

    /// Takes the task at the head of the queue, if there is one.
    pub fn fetch(&mut self) -> (res: Option<TaskControlBlock>)
        ensures
            old(self)@.len() == 0 ==> res is None && final(self)@ == old(self)@,
            old(self)@.len() > 0 ==> res == Some(old(self)@[0]) && final(self)@ == old(self)@.skip(
                1,
            ),
    {
        let res = self.ready_queue.pop_front();
        proof {
            if old(self)@.len() > 0 {
                assert(old(self)@.subrange(1, old(self)@.len() as int) =~= old(self)@.skip(1));
            }
        }
        res
    }
}

} // verus!
