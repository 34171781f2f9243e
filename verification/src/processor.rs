//! The processor: which task runs now, and every hand-over of the CPU between
//! a task and the idle control flow.
//!
//! The functions here decide; they do not switch. Each hand-over is returned
//! as a `ContextSwitch` that the platform layer carries out.
use vstd::prelude::*;
use crate::config::MAX_SYSCALL_NUM;
use crate::mm::{MapPermission, page_ceil, page_floor, page_range, range_pages};
use crate::task::{counted, TaskContext, TaskControlBlock, TaskManager, TaskStatus, TrapContext};

verus! {

/// A place where the machine context of the control flow that gives up the
/// CPU is saved.
#[derive(Clone, Copy, Debug, PartialEq, Eq, Structural)]
pub enum ContextSlot {
    /// The idle control flow's slot in the processor.
    Idle,
    /// The context slot of the task with this pid.
    Task(usize),
    /// Nowhere: the control flow never resumes.
    Discard,
}

/// One hand-over of the CPU: save the running context into `save_into`, then
/// resume `resume`.
#[derive(Clone, Copy, Debug, PartialEq, Eq)]
pub struct ContextSwitch {
    pub save_into: ContextSlot,
    pub resume: TaskContext,
}

/// Per-CPU scheduling state.
#[derive(Debug)]
pub struct Processor {
    /// The task that runs on the CPU now, if any.
    pub current: Option<TaskControlBlock>,
    /// The saved context of the idle control flow.
    pub idle_task_cx: TaskContext,
}

/// The address-space rights that the three low bits of `prot` ask for: bit 0
/// for reading, bit 1 for writing, bit 2 for executing. User access is always
/// granted.
pub open spec fn permission_of(prot: usize) -> MapPermission {
    MapPermission {
        readable: prot % 2 == 1,
        writable: (prot / 2) % 2 == 1,
        executable: (prot / 4) % 2 == 1,
        user: true,
    }
}

/// The pids of the tasks in a queue.
pub open spec fn queued_pids(queue: Seq<TaskControlBlock>) -> Set<usize> {
    Set::new(|pid: usize| exists|i: int| 0 <= i < queue.len() && (#[trigger] queue[i]).pid == pid)
}

/// A pid that is neither queued nor current stays so: when another task
/// yields, the queue still does not hold it, and when the next task is
/// dispatched at any time, that task is another one and the rest of the
/// queue still does not hold it. An exit leaves the queue as it is and the
/// processor without a task, so from then on no dispatch brings the exited
/// task back.
pub proof fn lemma_absent_pid_stays_out(
    queue: Seq<TaskControlBlock>,
    current: TaskControlBlock,
    pid: usize,
    now: usize,
)
    requires
        !queued_pids(queue).contains(pid),
        current.pid != pid,
    ensures
        !queued_pids(queue.push(current.suspended())).contains(pid),
        queue.len() > 0 ==> queue[0].dispatched(now).pid != pid && !queued_pids(
            queue.skip(1),
        ).contains(pid),
{
    let grown = queue.push(current.suspended());
    assert forall|i: int| 0 <= i < grown.len() implies (#[trigger] grown[i]).pid != pid by {
        if i < queue.len() {
            assert(grown[i] == queue[i]);
        }
    }
    if queue.len() > 0 {
        assert(queue[0].pid != pid);
        let rest = queue.skip(1);
        assert forall|i: int| 0 <= i < rest.len() implies (#[trigger] rest[i]).pid != pid by {
            assert(rest[i] == queue[i + 1]);
        }
    }
}

/// No two tasks among the current one and the queued ones share a pid.
pub open spec fn pids_distinct(current: Option<TaskControlBlock>, queue: Seq<TaskControlBlock>) -> bool {
    &&& forall|i: int, j: int|
        0 <= i < j < queue.len() ==> (#[trigger] queue[i]).pid != (#[trigger] queue[j]).pid
    &&& current is Some ==> forall|i: int|
        0 <= i < queue.len() ==> (#[trigger] queue[i]).pid != current.unwrap().pid
}

/// While pids are distinct, a task that exits is gone: its pid is not in the
/// queue that it leaves behind. And pids stay distinct through an exit, a
/// yield and a dispatch, so the queue never comes to hold it either.
pub proof fn lemma_exit_removes_task(
    current: TaskControlBlock,
    queue: Seq<TaskControlBlock>,
    now: usize,
)
    requires
        pids_distinct(Some(current), queue),
    ensures
        !queued_pids(queue).contains(current.pid),
        pids_distinct(None, queue),
        pids_distinct(None, queue.push(current.suspended())),
        queue.len() > 0 ==> pids_distinct(Some(queue[0].dispatched(now)), queue.skip(1)),
{
    let grown = queue.push(current.suspended());
    assert forall|i: int, j: int| 0 <= i < j < grown.len() implies (#[trigger] grown[i]).pid != (
    #[trigger] grown[j]).pid by {
        assert(grown[i] == queue[i]);
        if j < queue.len() {
            assert(grown[j] == queue[j]);
        }
    }
    if queue.len() > 0 {
        let rest = queue.skip(1);
        assert forall|i: int, j: int| 0 <= i < j < rest.len() implies (#[trigger] rest[i]).pid != (
        #[trigger] rest[j]).pid by {
            assert(rest[i] == queue[i + 1] && rest[j] == queue[j + 1]);
        }
        assert forall|i: int| 0 <= i < rest.len() implies (#[trigger] rest[i]).pid
            != queue[0].dispatched(now).pid by {
            assert(rest[i] == queue[i + 1]);
        }
    }
}

impl Processor {
    /// A task is on the CPU.
    pub open spec fn has_current(&self) -> bool {
        self.current is Some
    }

    /// The task on the CPU, if any, is well-formed, Running, and has its
    /// start time.
    pub open spec fn wf(&self) -> bool {
        self.current is Some ==> {
            &&& self.current.unwrap().wf()
            &&& self.current.unwrap().task_status == TaskStatus::Running
            &&& self.current.unwrap().start_time is Some
        }
    }

    /// A processor with no task on it and a zeroed idle context.
    pub fn new() -> (p: Processor)
        ensures
            p.current is None,
            p.idle_task_cx.is_zero(),
            p.wf(),
    {
        Processor { current: None, idle_task_cx: TaskContext::zero_init() }
    }

    /// Takes the current task out of the processor, leaving none.
    pub fn take_current(&mut self) -> (task: Option<TaskControlBlock>)
        ensures
            task == old(self).current,
            final(self).current is None,
            final(self).idle_task_cx == old(self).idle_task_cx,
    {
        self.current.take()
    }

    /// The current task, left in place.
    pub fn current(&self) -> (task: Option<&TaskControlBlock>)
        ensures
            task is Some <==> self.current is Some,
            task is Some ==> *task.unwrap() == self.current.unwrap(),
    {
        self.current.as_ref()
    }

    /// The syscall counters of the current task.
    pub fn get_current_task_syscall_time(&self) -> (counts: [u32; MAX_SYSCALL_NUM])
        requires
            self.has_current(),
        ensures
            counts == self.current.unwrap().syscall_times,
    {
        let task = self.current().unwrap();
        task.syscall_times
    }

    /// The time at which the current task was first dispatched.
    pub fn get_current_task_start_time(&self) -> (t: usize)
        requires
            self.has_current(),
            self.current.unwrap().start_time is Some,
        ensures
            Some(t) == self.current.unwrap().start_time,
    {
        let task = self.current().unwrap();
        task.start_time.unwrap()
    }

    /// Counts one more invocation of syscall `syscall_id` for the current
    /// task. Nothing else changes.
    pub fn update_syscall_times(&mut self, syscall_id: usize)
        requires
            old(self).has_current(),
            syscall_id < MAX_SYSCALL_NUM,
            old(self).current.unwrap().syscall_times[syscall_id as int] < u32::MAX,
        ensures
            final(self).has_current(),
            final(self).current.unwrap().syscall_times@ == counted(
                old(self).current.unwrap().syscall_times@,
                syscall_id as int,
            ),
            final(self).current.unwrap() == (TaskControlBlock {
                syscall_times: final(self).current.unwrap().syscall_times,
                ..old(self).current.unwrap()
            }),
            final(self).idle_task_cx == old(self).idle_task_cx,
    {
        let mut task = self.current.take().unwrap();
        task.count_syscall(syscall_id);
        self.current = Some(task);
    }

    /// The status of the current task.
    pub fn get_current_task_status(&mut self) -> (status: TaskStatus)
        requires
            old(self).has_current(),
        ensures
            status == old(self).current.unwrap().task_status,
            *final(self) == *old(self),
    {
        let task = self.current().unwrap();
        task.task_status
    }
}

/// One turn of the scheduling loop at time `now`. With no task waiting,
/// nothing changes and there is nothing to switch to. Otherwise the task at
/// the head of the queue leaves it, becomes the current task, Running, and
/// the hand-over saves the idle context and resumes that task.
pub fn run_tasks(processor: &mut Processor, manager: &mut TaskManager, now: usize) -> (res: Option<
    ContextSwitch,
>)
    requires
        old(manager).wf(),
    ensures
        final(manager).wf(),
        final(processor).idle_task_cx == old(processor).idle_task_cx,
        old(manager)@.len() == 0 ==> res is None && final(manager)@ == old(manager)@
            && final(processor).current == old(processor).current,
        old(manager)@.len() > 0 ==> {
            &&& final(manager)@ == old(manager)@.skip(1)
            &&& final(processor).current == Some(old(manager)@[0].dispatched(now))
            &&& final(processor).wf()
            &&& res == Some(
                ContextSwitch { save_into: ContextSlot::Idle, resume: old(manager)@[0].task_cx },
            )
        },
{
    match manager.fetch() {
        Some(mut task) => {
            proof {
                assert(old(manager)@[0].wf());
                assert forall|i: int| 0 <= i < manager@.len() implies (#[trigger] manager@[i]).wf()
                    && manager@[i].task_status == TaskStatus::Ready by {
                    assert(manager@[i] == old(manager)@[i + 1]);
                }
            }
            let next_task_cx = task.task_cx;
            task.mark_running(now);
            processor.current = Some(task);
            Some(ContextSwitch { save_into: ContextSlot::Idle, resume: next_task_cx })
        },
        None => None,
    }
}

/// Takes the current task out of the processor, leaving none.
pub fn take_current_task(processor: &mut Processor) -> (task: Option<TaskControlBlock>)
    ensures
        task == old(processor).current,
        final(processor).current is None,
        final(processor).idle_task_cx == old(processor).idle_task_cx,
{
    processor.take_current()
}

/// The current task, left in place.
pub fn current_task(processor: &Processor) -> (task: Option<&TaskControlBlock>)
    ensures
        task is Some <==> processor.current is Some,
        task is Some ==> *task.unwrap() == processor.current.unwrap(),
{
    processor.current()
}

/// The page-table identifier of the current task.
pub fn current_user_token(processor: &Processor) -> (token: usize)
    requires
        processor.has_current(),
    ensures
        token == processor.current.unwrap().user_token,
{
    let task = current_task(processor).unwrap();
    task.get_user_token()
}

/// The hand-over by which a control flow gives the CPU back to the scheduling
/// loop: its context is saved into `switched_task_cx`, and the idle context
/// is resumed.
pub fn schedule(processor: &Processor, switched_task_cx: ContextSlot) -> (res: ContextSwitch)
    ensures
        res == (ContextSwitch { save_into: switched_task_cx, resume: processor.idle_task_cx }),
{
    ContextSwitch { save_into: switched_task_cx, resume: processor.idle_task_cx }
}

/// The time at which the current task was first dispatched.
pub fn get_start_time(processor: &Processor) -> (t: usize)
    requires
        processor.has_current(),
        processor.current.unwrap().start_time is Some,
    ensures
        Some(t) == processor.current.unwrap().start_time,
{
    processor.get_current_task_start_time()
}

/// The syscall counters of the current task.
pub fn get_syscall_time(processor: &Processor) -> (counts: [u32; MAX_SYSCALL_NUM])
    requires
        processor.has_current(),
    ensures
        counts == processor.current.unwrap().syscall_times,
{
    processor.get_current_task_syscall_time()
}

/// The status of the current task.
pub fn get_status(processor: &mut Processor) -> (status: TaskStatus)
    requires
        old(processor).has_current(),
    ensures
        status == old(processor).current.unwrap().task_status,
        *final(processor) == *old(processor),
{
    processor.get_current_task_status()
}

/// Counts one more invocation of syscall `syscall_id` for the current task.
pub fn update_syscall_times(processor: &mut Processor, syscall_id: usize)
    requires
        old(processor).has_current(),
        syscall_id < MAX_SYSCALL_NUM,
        old(processor).current.unwrap().syscall_times[syscall_id as int] < u32::MAX,
    ensures
        final(processor).has_current(),
        final(processor).current.unwrap().syscall_times@ == counted(
            old(processor).current.unwrap().syscall_times@,
            syscall_id as int,
        ),
        final(processor).current.unwrap() == (TaskControlBlock {
            syscall_times: final(processor).current.unwrap().syscall_times,
            ..old(processor).current.unwrap()
        }),
        final(processor).idle_task_cx == old(processor).idle_task_cx,
{
    processor.update_syscall_times(syscall_id);
}

/// Maps a range into the current task's address space with the rights that
/// the low three bits of `prot` ask for, and user access. Returns 0 when
/// done, -1 with nothing changed when the range runs past the end of the
/// address space or holds a page that is mapped already.
pub fn task_mmap(processor: &mut Processor, start: usize, len: usize, prot: usize) -> (res: isize)
    requires
        old(processor).has_current(),
        old(processor).wf(),
    ensures
        final(processor).wf(),
        final(processor).has_current(),
        res == 0 || res == -1,
        res == 0 <==> start + len <= usize::MAX && old(processor).current.unwrap().memory_set.range_free(
            page_floor(start as int),
            page_ceil(start + len),
        ),
        res == 0 ==> final(processor).current.unwrap().memory_set@ == old(processor).current.unwrap().memory_set@.union_prefer_right(
            range_pages(page_floor(start as int), page_ceil(start + len), permission_of(prot)),
        ),
        res != 0 ==> *final(processor) == *old(processor),
        final(processor).idle_task_cx == old(processor).idle_task_cx,
        final(processor).current.unwrap() == (TaskControlBlock {
            memory_set: final(processor).current.unwrap().memory_set,
            ..old(processor).current.unwrap()
        }),
{
    let perm = MapPermission {
        readable: prot % 2 == 1,
        writable: (prot / 2) % 2 == 1,
        executable: (prot / 4) % 2 == 1,
        user: true,
    };
    let mut task = processor.current.take().unwrap();
    let res = task.memory_set.mmap(start, len, perm);
    processor.current = Some(task);
    res
}

/// Unmaps a range from the current task's address space. Returns 0 when
/// done, -1 with nothing changed when the range runs past the end of the
/// address space or holds a page that is not mapped.
pub fn task_munmap(processor: &mut Processor, start: usize, len: usize) -> (res: isize)
    requires
        old(processor).has_current(),
        old(processor).wf(),
    ensures
        final(processor).wf(),
        final(processor).has_current(),
        res == 0 || res == -1,
        res == 0 <==> start + len <= usize::MAX && old(processor).current.unwrap().memory_set.range_mapped(
            page_floor(start as int),
            page_ceil(start + len),
        ),
        res == 0 ==> final(processor).current.unwrap().memory_set@ == old(processor).current.unwrap().memory_set@.remove_keys(
            page_range(page_floor(start as int), page_ceil(start + len)),
        ),
        res != 0 ==> *final(processor) == *old(processor),
        final(processor).idle_task_cx == old(processor).idle_task_cx,
        final(processor).current.unwrap() == (TaskControlBlock {
            memory_set: final(processor).current.unwrap().memory_set,
            ..old(processor).current.unwrap()
        }),
{
    let mut task = processor.current.take().unwrap();
    let res = task.memory_set.munmap(start, len);
    processor.current = Some(task);
    res
}

/// Moves the current task's program break by `size` bytes. Returns the break
/// as it was before, or `None` with nothing changed when the new break is
/// not allowed.
pub fn change_program_brk(processor: &mut Processor, size: i32) -> (res: Option<usize>)
    requires
        old(processor).has_current(),
    ensures
        res is Some <==> crate::task::brk_allowed(
            old(processor).current.unwrap().heap_bottom,
            crate::task::brk_target(old(processor).current.unwrap().program_brk, size),
        ),
        res is Some ==> res == Some(old(processor).current.unwrap().program_brk) && *final(processor) == (Processor {
            current: Some(
                TaskControlBlock {
                    program_brk: crate::task::brk_target(
                        old(processor).current.unwrap().program_brk,
                        size,
                    ) as usize,
                    ..old(processor).current.unwrap()
                },
            ),
            ..*old(processor)
        }),
        res is None ==> *final(processor) == *old(processor),
{
    let mut task = processor.current.take().unwrap();
    let res = task.change_program_brk(size);
    processor.current = Some(task);
    res
}

/// The current task gives up the CPU of its own accord: it becomes Ready and
/// goes to the tail of the queue, the processor is left with no task, and
/// the hand-over saves the task's context in its own slot and resumes the
/// idle control flow.
pub fn suspend_current_and_run_next(processor: &mut Processor, manager: &mut TaskManager) -> (res:
    ContextSwitch)
    requires
        old(processor).has_current(),
        old(processor).wf(),
        old(manager).wf(),
    ensures
        final(processor).current is None,
        final(processor).idle_task_cx == old(processor).idle_task_cx,
        final(manager)@ == old(manager)@.push(old(processor).current.unwrap().suspended()),
        final(manager).wf(),
        res == (ContextSwitch {
            save_into: ContextSlot::Task(old(processor).current.unwrap().pid),
            resume: old(processor).idle_task_cx,
        }),
{
    let mut task = take_current_task(processor).unwrap();
    let slot = ContextSlot::Task(task.pid);
    task.mark_ready();
    manager.add(task);
    schedule(processor, slot)
}

/// The current task ends: it becomes Exited with `exit_code`, its address
/// space is emptied, and it is handed back to the caller instead of the
/// queue, which is left as it was. The processor is left with no task, and
/// the hand-over saves nothing and resumes the idle control flow.
pub fn exit_current_and_run_next(processor: &mut Processor, exit_code: i32) -> (res: (
    TaskControlBlock,
    ContextSwitch,
))
    requires
        old(processor).has_current(),
        old(processor).wf(),
    ensures
        final(processor).current is None,
        final(processor).idle_task_cx == old(processor).idle_task_cx,
        res.0.memory_set@ == Map::<int, MapPermission>::empty(),
        res.0 == (TaskControlBlock {
            task_status: TaskStatus::Exited,
            exit_code,
            memory_set: res.0.memory_set,
            ..old(processor).current.unwrap()
        }),
        res.1 == (ContextSwitch {
            save_into: ContextSlot::Discard,
            resume: old(processor).idle_task_cx,
        }),
{
    let mut task = take_current_task(processor).unwrap();
    task.mark_exited(exit_code);
    let switch = schedule(processor, ContextSlot::Discard);
    (task, switch)
}

/// The user-mode register snapshot of the current task, for reading and
/// writing in place. Nothing else of the processor changes.
pub fn current_trap_cx(processor: &mut Processor) -> (cx: &mut TrapContext)
    requires
        old(processor).has_current(),
    ensures
        *cx == old(processor).current.unwrap().trap_cx,
        *final(processor) == (Processor {
            current: Some(
                TaskControlBlock { trap_cx: *final(cx), ..old(processor).current.unwrap() },
            ),
            ..*old(processor)
        }),
{
    &mut processor.current.as_mut().unwrap().trap_cx
}

} // verus!
