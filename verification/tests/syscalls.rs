use os_kernel::config::{MAX_SYSCALL_NUM, PAGE_SIZE};
use os_kernel::mm::MemorySet;
use os_kernel::processor::{
    change_program_brk, run_tasks, update_syscall_times, ContextSlot, ContextSwitch, Processor,
};
use os_kernel::syscall::{
    sys_get_time, sys_sbrk, sys_task_info, syscall, Syscall, SyscallOutcome, TaskInfo, TimeVal,
    TASK_INFO_SIZE, TIME_VAL_SIZE,
};
use os_kernel::task::{TaskControlBlock, TaskManager, TaskStatus};
use os_kernel::user_buffer::{copy_to_buffers, page_pieces};

const HEAP: usize = 0x2000_0000;

fn running_task(now: usize) -> Processor {
    let mut manager = TaskManager::new();
    manager.add(TaskControlBlock::new(1, MemorySet::new_bare(), 7, 0x1000, 0x8000, HEAP));
    let mut processor = Processor::new();
    assert!(run_tasks(&mut processor, &mut manager, now).is_some());
    processor
}

fn buffers_for(ptr: usize, len: usize, fill: u8) -> Vec<Vec<u8>> {
    page_pieces(ptr, len).iter().map(|piece| vec![fill; piece.1]).collect()
}

fn word(bytes: &[u8]) -> u64 {
    let mut w = [0u8; 8];
    w.copy_from_slice(bytes);
    u64::from_le_bytes(w)
}

fn brk_of(processor: &Processor) -> usize {
    processor.current.as_ref().unwrap().program_brk
}

#[test]
fn page_pieces_cut_at_page_boundaries() {
    assert_eq!(page_pieces(0x5000, 0), vec![]);
    assert_eq!(page_pieces(0x5000, 16), vec![(0x5000, 16)]);
    assert_eq!(page_pieces(0x5000, PAGE_SIZE), vec![(0x5000, PAGE_SIZE)]);
    assert_eq!(page_pieces(0x5000 + 4088, 16), vec![(0x5000 + 4088, 8), (0x6000, 8)]);
    assert_eq!(page_pieces(0x5fff, 2), vec![(0x5fff, 1), (0x6000, 1)]);
    assert_eq!(
        page_pieces(0x5ffc, 2 * PAGE_SIZE + 8),
        vec![(0x5ffc, 4), (0x6000, PAGE_SIZE), (0x7000, PAGE_SIZE), (0x8000, 4)]
    );
    assert_eq!(page_pieces(usize::MAX - 1, 1), vec![(usize::MAX - 1, 1)]);
}

#[test]
fn copy_advances_through_the_source() {
    let mut buffers = vec![vec![0u8; 3], vec![], vec![0u8; 1], vec![0u8; 2]];
    copy_to_buffers(&mut buffers, &vec![1, 2, 3, 4, 5, 6]);
    assert_eq!(buffers, vec![vec![1, 2, 3], vec![], vec![4], vec![5, 6]]);
}

#[test]
fn copy_stops_where_source_or_room_ends() {
    let mut buffers = vec![vec![9u8; 2], vec![9u8; 3]];
    copy_to_buffers(&mut buffers, &vec![1, 2, 3]);
    assert_eq!(buffers, vec![vec![1, 2], vec![3, 9, 9]]);
    let mut small = vec![vec![9u8; 2]];
    copy_to_buffers(&mut small, &vec![1, 2, 3]);
    assert_eq!(small, vec![vec![1, 2]]);
    let mut none: Vec<Vec<u8>> = Vec::new();
    copy_to_buffers(&mut none, &vec![1]);
    assert!(none.is_empty());
}

#[test]
fn time_val_bytes_are_little_endian_words() {
    let bytes = TimeVal { sec: 0x0102, usec: 999_999 }.to_bytes();
    assert_eq!(bytes.len(), TIME_VAL_SIZE);
    assert_eq!(bytes, vec![2, 1, 0, 0, 0, 0, 0, 0, 0x3f, 0x42, 0x0f, 0, 0, 0, 0, 0]);
}

#[test]
fn get_time_record_split_over_two_pages() {
    let ptr = 0x7000 + PAGE_SIZE - 8;
    let mut buffers = buffers_for(ptr, TIME_VAL_SIZE, 0xaa);
    assert_eq!(buffers.len(), 2);
    assert_eq!(buffers[0].len(), 8);
    assert_eq!(buffers[1].len(), 8);
    assert_eq!(sys_get_time(1_234_567_890, &mut buffers, 0), 0);
    assert_eq!(word(&buffers[0]), 1234);
    assert_eq!(word(&buffers[1]), 567_890);
}

#[test]
fn get_time_record_split_inside_a_word() {
    let ptr = 0x7000 + PAGE_SIZE - 3;
    let mut buffers = buffers_for(ptr, TIME_VAL_SIZE, 0);
    assert_eq!(buffers[0].len(), 3);
    assert_eq!(buffers[1].len(), 13);
    assert_eq!(sys_get_time(7_000_001, &mut buffers, 0), 0);
    let joined = buffers.concat();
    assert_eq!(word(&joined[0..8]), 7);
    assert_eq!(word(&joined[8..16]), 1);
}

#[test]
fn get_time_in_one_page() {
    let mut buffers = buffers_for(0x7000, TIME_VAL_SIZE, 0);
    assert_eq!(buffers.len(), 1);
    assert_eq!(sys_get_time(999_999, &mut buffers, 0), 0);
    assert_eq!(word(&buffers[0][0..8]), 0);
    assert_eq!(word(&buffers[0][8..16]), 999_999);
}

#[test]
fn task_info_bytes_layout() {
    let mut counts = [0u32; MAX_SYSCALL_NUM];
    counts[0] = 1;
    counts[169] = 0x0102_0304;
    counts[499] = 7;
    let bytes = TaskInfo { status: TaskStatus::Exited, syscall_times: counts, time: 5000 }.to_bytes();
    assert_eq!(bytes.len(), TASK_INFO_SIZE);
    assert_eq!(&bytes[0..4], &[2, 0, 0, 0]);
    assert_eq!(&bytes[4..8], &[1, 0, 0, 0]);
    assert_eq!(&bytes[4 + 4 * 169..8 + 4 * 169], &[4, 3, 2, 1]);
    assert_eq!(&bytes[4 + 4 * 499..8 + 4 * 499], &[7, 0, 0, 0]);
    assert_eq!(&bytes[2004..2008], &[0, 0, 0, 0]);
    assert_eq!(word(&bytes[2008..2016]), 5000);
    assert_eq!(bytes.iter().filter(|b| **b != 0).count(), 1 + 1 + 4 + 1 + 2);
}

#[test]
fn task_info_reports_status_counts_and_elapsed_time() {
    let mut processor = running_task(1000);
    update_syscall_times(&mut processor, 410);
    update_syscall_times(&mut processor, 410);
    update_syscall_times(&mut processor, 64);
    let mut buffers = buffers_for(0x9000 + PAGE_SIZE - 100, TASK_INFO_SIZE, 0xff);
    assert_eq!(buffers.len(), 2);
    assert_eq!(sys_task_info(&processor, 1750, &mut buffers), 0);
    let bytes = buffers.concat();
    assert_eq!(&bytes[0..4], &[1, 0, 0, 0]);
    assert_eq!(&bytes[4 + 4 * 410..8 + 4 * 410], &[2, 0, 0, 0]);
    assert_eq!(&bytes[4 + 4 * 64..8 + 4 * 64], &[1, 0, 0, 0]);
    assert_eq!(&bytes[4 + 4 * 65..8 + 4 * 65], &[0, 0, 0, 0]);
    assert_eq!(word(&bytes[2008..2016]), 750);
}

#[test]
fn task_info_elapsed_time_does_not_shrink() {
    let processor = running_task(20);
    let mut last = 0;
    for now in [20usize, 20, 21, 500, 500, 10_000] {
        let mut buffers = buffers_for(0x9000, TASK_INFO_SIZE, 0);
        assert_eq!(sys_task_info(&processor, now, &mut buffers), 0);
        let elapsed = word(&buffers[0][2008..2016]);
        assert!(elapsed >= last);
        assert_eq!(elapsed, (now - 20) as u64);
        last = elapsed;
    }
}

#[test]
fn sbrk_zero_returns_break_and_changes_nothing() {
    let mut processor = running_task(0);
    assert_eq!(sys_sbrk(&mut processor, 0), HEAP as isize);
    assert_eq!(brk_of(&processor), HEAP);
    assert!(processor.current.as_ref().unwrap().memory_set.areas.is_empty());
}

#[test]
fn sbrk_grow_then_shrink_restores_break() {
    let mut processor = running_task(0);
    assert_eq!(sys_sbrk(&mut processor, 4096), HEAP as isize);
    assert_eq!(brk_of(&processor), HEAP + 4096);
    assert_eq!(sys_sbrk(&mut processor, -4096), (HEAP + 4096) as isize);
    assert_eq!(brk_of(&processor), HEAP);
    assert_eq!(sys_sbrk(&mut processor, 0), HEAP as isize);
}

#[test]
fn sbrk_rejects_shrinking_below_heap_bottom() {
    let mut processor = running_task(0);
    assert_eq!(sys_sbrk(&mut processor, -1), -1);
    assert_eq!(brk_of(&processor), HEAP);
    assert_eq!(sys_sbrk(&mut processor, 10), HEAP as isize);
    assert_eq!(sys_sbrk(&mut processor, -11), -1);
    assert_eq!(brk_of(&processor), HEAP + 10);
    assert_eq!(change_program_brk(&mut processor, -10), Some(HEAP + 10));
    assert_eq!(change_program_brk(&mut processor, i32::MIN), None);
    assert_eq!(brk_of(&processor), HEAP);
}

#[test]
fn sbrk_rejects_break_above_largest_result() {
    let mut manager = TaskManager::new();
    let top = isize::MAX as usize;
    manager.add(TaskControlBlock::new(1, MemorySet::new_bare(), 7, 0x1000, 0x8000, top - 5));
    let mut processor = Processor::new();
    assert!(run_tasks(&mut processor, &mut manager, 0).is_some());
    assert_eq!(sys_sbrk(&mut processor, 6), -1);
    assert_eq!(brk_of(&processor), top - 5);
    assert_eq!(sys_sbrk(&mut processor, 5), (top - 5) as isize);
    assert_eq!(brk_of(&processor), top);
}

#[test]
fn dispatcher_counts_a_call_before_it_handles_it() {
    let mut processor = running_task(10);
    let mut manager = TaskManager::new();
    let mut none: Vec<Vec<u8>> = Vec::new();
    let bad = syscall(&mut processor, &mut manager, Syscall::Mmap(1, 4096, 3), 0, 10, &mut none);
    assert_eq!(bad, SyscallOutcome::Return(-1));
    let good =
        syscall(&mut processor, &mut manager, Syscall::Mmap(0x1000_0000, 4096, 3), 0, 10, &mut none);
    assert_eq!(good, SyscallOutcome::Return(0));
    let brk = syscall(&mut processor, &mut manager, Syscall::Sbrk(16), 0, 10, &mut none);
    assert_eq!(brk, SyscallOutcome::Return(HEAP as isize));
    let mut buffers = buffers_for(0x9000, TASK_INFO_SIZE, 0);
    let info = syscall(&mut processor, &mut manager, Syscall::TaskInfo, 0, 25, &mut buffers);
    assert_eq!(info, SyscallOutcome::Return(0));
    let bytes = buffers.concat();
    assert_eq!(&bytes[4 + 4 * 222..8 + 4 * 222], &[2, 0, 0, 0]);
    assert_eq!(&bytes[4 + 4 * 214..8 + 4 * 214], &[1, 0, 0, 0]);
    assert_eq!(&bytes[4 + 4 * 410..8 + 4 * 410], &[1, 0, 0, 0]);
    assert_eq!(&bytes[4 + 4 * 215..8 + 4 * 215], &[0, 0, 0, 0]);
    assert_eq!(word(&bytes[2008..2016]), 15);
    let mut time = buffers_for(0x9000 + PAGE_SIZE - 8, TIME_VAL_SIZE, 0);
    let got = syscall(&mut processor, &mut manager, Syscall::GetTime, 3_000_004, 30, &mut time);
    assert_eq!(got, SyscallOutcome::Return(0));
    assert_eq!(word(&time[0]), 3);
    assert_eq!(word(&time[1]), 4);
    let un = syscall(&mut processor, &mut manager, Syscall::Munmap(0x1000_0000, 4096), 0, 30, &mut none);
    assert_eq!(un, SyscallOutcome::Return(0));
    let counts = processor.get_current_task_syscall_time();
    assert_eq!(counts.iter().map(|c| *c as usize).sum::<usize>(), 6);
}

#[test]
fn dispatcher_yield_and_exit_hand_the_cpu_back() {
    let mut processor = running_task(10);
    let mut manager = TaskManager::new();
    let mut none: Vec<Vec<u8>> = Vec::new();
    let idle = processor.idle_task_cx;
    let out = syscall(&mut processor, &mut manager, Syscall::Yield, 0, 10, &mut none);
    assert_eq!(
        out,
        SyscallOutcome::Yielded(0, ContextSwitch { save_into: ContextSlot::Task(1), resume: idle })
    );
    assert!(processor.current.is_none());
    assert_eq!(manager.ready_queue.len(), 1);
    assert_eq!(manager.ready_queue[0].syscall_times[124], 1);
    assert_eq!(manager.ready_queue[0].task_status, TaskStatus::Ready);
    assert!(run_tasks(&mut processor, &mut manager, 11).is_some());
    let out = syscall(&mut processor, &mut manager, Syscall::Exit(3), 0, 12, &mut none);
    assert_eq!(
        out,
        SyscallOutcome::Exited(ContextSwitch { save_into: ContextSlot::Discard, resume: idle })
    );
    assert!(processor.current.is_none());
    assert!(manager.ready_queue.is_empty());
}

#[test]
fn syscall_ids_are_distinct_and_in_the_table() {
    let ids = [
        Syscall::Exit(0).id(),
        Syscall::Yield.id(),
        Syscall::GetTime.id(),
        Syscall::Sbrk(0).id(),
        Syscall::Munmap(0, 0).id(),
        Syscall::Mmap(0, 0, 0).id(),
        Syscall::TaskInfo.id(),
    ];
    assert_eq!(ids, [93, 124, 169, 214, 215, 222, 410]);
    assert!(ids.iter().all(|id| *id < MAX_SYSCALL_NUM));
}
