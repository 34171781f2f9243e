use os_kernel::config::MAX_SYSCALL_NUM;
use os_kernel::mm::MemorySet;
use os_kernel::processor::{
    current_task, current_trap_cx, current_user_token, exit_current_and_run_next, get_start_time,
    get_status, get_syscall_time, run_tasks, schedule, take_current_task, update_syscall_times,
    ContextSlot, ContextSwitch, Processor,
};
use os_kernel::syscall::{sys_exit, sys_yield};
use os_kernel::task::{TaskContext, TaskControlBlock, TaskManager, TaskStatus};

fn task(pid: usize) -> TaskControlBlock {
    let mut t = TaskControlBlock::new(
        pid,
        MemorySet::new_bare(),
        100 + pid,
        0x1000,
        0x8000,
        0x2000_0000,
    );
    t.task_cx.ra = 0x4000 + pid;
    t.task_cx.sp = 0x9000 + pid;
    t
}

fn queue_of(pids: &[usize]) -> TaskManager {
    let mut manager = TaskManager::new();
    for pid in pids {
        manager.add(task(*pid));
    }
    manager
}

fn current_pid(processor: &Processor) -> usize {
    current_task(processor).unwrap().pid
}

#[test]
fn new_task_is_ready_with_zeroed_accounting() {
    let t = TaskControlBlock::new(3, MemorySet::new_bare(), 9, 0x1000, 0x8000, 0x2000_0000);
    assert_eq!(t.pid, 3);
    assert_eq!(t.task_status, TaskStatus::Ready);
    assert_eq!(t.start_time, None);
    assert_eq!(t.syscall_times, [0u32; MAX_SYSCALL_NUM]);
    assert_eq!(t.heap_bottom, 0x2000_0000);
    assert_eq!(t.program_brk, 0x2000_0000);
    assert_eq!(t.get_user_token(), 9);
    assert_eq!(t.trap_cx.sepc, 0x1000);
    assert_eq!(t.trap_cx.x[2], 0x8000);
    assert_eq!(t.task_cx, TaskContext::zero_init());
}

#[test]
fn new_processor_is_idle() {
    let mut processor = Processor::new();
    assert!(processor.current().is_none());
    assert!(current_task(&processor).is_none());
    assert!(take_current_task(&mut processor).is_none());
    assert_eq!(processor.idle_task_cx, TaskContext { ra: 0, sp: 0, s: [0; 12] });
}

#[test]
fn run_tasks_with_empty_queue_does_nothing() {
    let mut processor = Processor::new();
    let mut manager = TaskManager::new();
    assert_eq!(run_tasks(&mut processor, &mut manager, 5), None);
    assert!(processor.current.is_none());
    assert!(manager.ready_queue.is_empty());
}

#[test]
fn run_tasks_dispatches_the_head() {
    let mut processor = Processor::new();
    processor.idle_task_cx.sp = 0x77;
    let mut manager = queue_of(&[1, 2]);
    let switch = run_tasks(&mut processor, &mut manager, 5).unwrap();
    assert_eq!(switch.save_into, ContextSlot::Idle);
    assert_eq!(switch.resume.ra, 0x4001);
    assert_eq!(switch.resume.sp, 0x9001);
    assert_eq!(current_pid(&processor), 1);
    assert_eq!(get_status(&mut processor), TaskStatus::Running);
    assert_eq!(processor.get_current_task_status(), TaskStatus::Running);
    assert_eq!(current_user_token(&processor), 101);
    assert_eq!(manager.ready_queue.len(), 1);
    assert_eq!(manager.ready_queue[0].pid, 2);
    assert_eq!(processor.idle_task_cx.sp, 0x77);
}

#[test]
fn round_robin_keeps_fifo_order() {
    let mut processor = Processor::new();
    let mut manager = queue_of(&[1, 2, 3]);
    let mut order: Vec<usize> = Vec::new();
    for turn in 0..6 {
        assert!(run_tasks(&mut processor, &mut manager, turn).is_some());
        let pid = current_pid(&processor);
        order.push(pid);
        let (ret, switch) = sys_yield(&mut processor, &mut manager);
        assert_eq!(ret, 0);
        assert_eq!(switch.save_into, ContextSlot::Task(pid));
        assert_eq!(switch.resume, processor.idle_task_cx);
        assert!(processor.current.is_none());
        assert_eq!(manager.ready_queue.back().unwrap().pid, pid);
        assert_eq!(manager.ready_queue.back().unwrap().task_status, TaskStatus::Ready);
    }
    assert_eq!(order, vec![1, 2, 3, 1, 2, 3]);
}

#[test]
fn start_time_is_set_at_first_dispatch_only() {
    let mut processor = Processor::new();
    let mut manager = queue_of(&[1]);
    assert!(run_tasks(&mut processor, &mut manager, 40).is_some());
    assert_eq!(get_start_time(&processor), 40);
    assert_eq!(processor.get_current_task_start_time(), 40);
    sys_yield(&mut processor, &mut manager);
    assert!(run_tasks(&mut processor, &mut manager, 90).is_some());
    assert_eq!(get_start_time(&processor), 40);
}

#[test]
fn exited_task_is_never_dispatched_again() {
    let mut processor = Processor::new();
    let mut manager = queue_of(&[1, 2, 3]);
    assert!(run_tasks(&mut processor, &mut manager, 0).is_some());
    sys_yield(&mut processor, &mut manager);
    assert!(run_tasks(&mut processor, &mut manager, 1).is_some());
    assert_eq!(current_pid(&processor), 2);
    let idle = processor.idle_task_cx;
    let switch = sys_exit(&mut processor, -3);
    assert_eq!(switch, ContextSwitch { save_into: ContextSlot::Discard, resume: idle });
    assert!(processor.current.is_none());
    let mut order: Vec<usize> = Vec::new();
    for turn in 0..8 {
        assert!(run_tasks(&mut processor, &mut manager, turn).is_some());
        order.push(current_pid(&processor));
        sys_yield(&mut processor, &mut manager);
    }
    assert_eq!(order, vec![3, 1, 3, 1, 3, 1, 3, 1]);
}

#[test]
fn exit_marks_task_and_empties_its_address_space() {
    let mut processor = Processor::new();
    let mut manager = queue_of(&[4]);
    assert!(run_tasks(&mut processor, &mut manager, 0).is_some());
    assert_eq!(os_kernel::processor::task_mmap(&mut processor, 0x1000_0000, 4096, 3), 0);
    update_syscall_times(&mut processor, 93);
    let (exited, switch) = exit_current_and_run_next(&mut processor, 17);
    assert_eq!(exited.pid, 4);
    assert_eq!(exited.task_status, TaskStatus::Exited);
    assert_eq!(exited.exit_code, 17);
    assert!(exited.memory_set.areas.is_empty());
    assert_eq!(exited.syscall_times[93], 1);
    assert_eq!(switch.save_into, ContextSlot::Discard);
    assert!(processor.current.is_none());
    assert!(manager.ready_queue.is_empty());
    assert_eq!(run_tasks(&mut processor, &mut manager, 1), None);
}

#[test]
fn syscall_counter_counts_each_invocation() {
    let mut processor = Processor::new();
    let mut manager = queue_of(&[1]);
    assert!(run_tasks(&mut processor, &mut manager, 0).is_some());
    for _ in 0..5 {
        update_syscall_times(&mut processor, 64);
    }
    for _ in 0..2 {
        processor.update_syscall_times(499);
    }
    let counts = get_syscall_time(&processor);
    assert_eq!(counts, processor.get_current_task_syscall_time());
    for id in 0..MAX_SYSCALL_NUM {
        let expected = if id == 64 { 5 } else if id == 499 { 2 } else { 0 };
        assert_eq!(counts[id], expected);
    }
}

#[test]
fn syscall_counters_survive_a_yield() {
    let mut processor = Processor::new();
    let mut manager = queue_of(&[1, 2]);
    assert!(run_tasks(&mut processor, &mut manager, 0).is_some());
    update_syscall_times(&mut processor, 124);
    sys_yield(&mut processor, &mut manager);
    assert!(run_tasks(&mut processor, &mut manager, 1).is_some());
    assert_eq!(get_syscall_time(&processor)[124], 0);
    update_syscall_times(&mut processor, 124);
    update_syscall_times(&mut processor, 124);
    sys_yield(&mut processor, &mut manager);
    assert!(run_tasks(&mut processor, &mut manager, 2).is_some());
    assert_eq!(current_pid(&processor), 1);
    assert_eq!(get_syscall_time(&processor)[124], 1);
}

#[test]
fn schedule_resumes_the_idle_context() {
    let mut processor = Processor::new();
    processor.idle_task_cx.ra = 0x1234;
    processor.idle_task_cx.s[3] = 9;
    let switch = schedule(&processor, ContextSlot::Task(8));
    assert_eq!(switch.save_into, ContextSlot::Task(8));
    assert_eq!(switch.resume, processor.idle_task_cx);
}

#[test]
fn take_current_leaves_none() {
    let mut processor = Processor::new();
    let mut manager = queue_of(&[6]);
    assert!(run_tasks(&mut processor, &mut manager, 0).is_some());
    let taken = processor.take_current().unwrap();
    assert_eq!(taken.pid, 6);
    assert_eq!(taken.task_status, TaskStatus::Running);
    assert!(processor.current().is_none());
}

#[test]
fn trap_context_is_changed_in_place() {
    let mut processor = Processor::new();
    let mut manager = queue_of(&[6]);
    assert!(run_tasks(&mut processor, &mut manager, 0).is_some());
    assert_eq!(current_trap_cx(&mut processor).sepc, 0x1000);
    current_trap_cx(&mut processor).x[10] = 42;
    current_trap_cx(&mut processor).sepc += 4;
    let task = current_task(&processor).unwrap();
    assert_eq!(task.trap_cx.x[10], 42);
    assert_eq!(task.trap_cx.sepc, 0x1004);
    assert_eq!(task.trap_cx.x[2], 0x8000);
    assert_eq!(task.pid, 6);
}

#[test]
fn task_status_follows_the_life_cycle() {
    let mut t = task(1);
    t.mark_running(12);
    assert_eq!(t.task_status, TaskStatus::Running);
    assert_eq!(t.start_time, Some(12));
    t.mark_ready();
    assert_eq!(t.task_status, TaskStatus::Ready);
    t.mark_running(30);
    assert_eq!(t.start_time, Some(12));
    t.mark_exited(2);
    assert_eq!(t.task_status, TaskStatus::Exited);
    assert_eq!(t.exit_code, 2);
}

#[test]
fn manager_fetch_is_first_in_first_out() {
    let mut manager = queue_of(&[5, 6]);
    assert_eq!(manager.fetch().unwrap().pid, 5);
    manager.add(task(7));
    assert_eq!(manager.fetch().unwrap().pid, 6);
    assert_eq!(manager.fetch().unwrap().pid, 7);
    assert!(manager.fetch().is_none());
}
