use raytracing_demo::mirror::{DynamicBuffer, SyncAction};

/// A host-side stand-in for the GPU buffer: one slot per record.
struct FakeGpu {
    slots: Vec<Option<u32>>,
    allocations: usize,
    writes: Vec<usize>,
    failures_left: usize,
}

impl FakeGpu {
    fn new() -> FakeGpu {
        FakeGpu { slots: Vec::new(), allocations: 0, writes: Vec::new(), failures_left: 0 }
    }
}

/// Runs one sync pass the way the frame loop does.
fn sync(buf: &mut DynamicBuffer<u32>, gpu: &mut FakeGpu) {
    gpu.writes.clear();
    gpu.allocations = 0;
    loop {
        match buf.next_action() {
            SyncAction::Allocate(n) => {
                gpu.slots = vec![None; n];
                gpu.allocations += 1;
                buf.complete_allocation();
            }
            SyncAction::Write(i) => {
                if gpu.failures_left > 0 {
                    gpu.failures_left -= 1;
                    buf.complete_write(false);
                } else {
                    gpu.slots[i] = Some(buf.get(i).value);
                    gpu.writes.push(i);
                    buf.complete_write(true);
                }
            }
            SyncAction::Done => break,
        }
    }
}

fn all_clean(buf: &DynamicBuffer<u32>) -> bool {
    (0..buf.len()).all(|i| !buf.get(i).dirty)
}

#[test]
fn five_new_materials_are_written_once() {
    let mut buf = DynamicBuffer::new();
    for v in 0..5u32 {
        buf.push(10 + v);
    }
    let mut gpu = FakeGpu::new();
    sync(&mut buf, &mut gpu);
    assert_eq!(gpu.allocations, 1);
    assert_eq!(gpu.writes, vec![0, 1, 2, 3, 4]);
    assert_eq!(gpu.slots, vec![Some(10), Some(11), Some(12), Some(13), Some(14)]);
    assert!(all_clean(&buf));
    assert!(buf.has_buffer());
}

#[test]
fn appending_rebuilds_and_rewrites_every_entry() {
    let mut buf = DynamicBuffer::new();
    for v in 0..3u32 {
        buf.push(v);
    }
    let mut gpu = FakeGpu::new();
    sync(&mut buf, &mut gpu);
    assert_eq!(gpu.slots.len(), 3);
    assert!(all_clean(&buf));

    assert_eq!(buf.push(3), 3);
    sync(&mut buf, &mut gpu);
    assert_eq!(gpu.allocations, 1);
    assert_eq!(gpu.slots.len(), 4);
    assert_eq!(gpu.writes, vec![0, 1, 2, 3]);
    assert_eq!(gpu.slots, vec![Some(0), Some(1), Some(2), Some(3)]);
    assert!(all_clean(&buf));
}

#[test]
fn capacity_matches_length_after_sync() {
    let mut gpu = FakeGpu::new();
    let mut buf = DynamicBuffer::new();
    for n in 1..8usize {
        buf.push(n as u32);
        sync(&mut buf, &mut gpu);
        assert_eq!(gpu.slots.len(), n);
        assert_eq!(buf.len(), n);
    }
}

#[test]
fn second_pass_without_edits_writes_nothing() {
    let mut buf = DynamicBuffer::new();
    buf.push(1);
    buf.push(2);
    let mut gpu = FakeGpu::new();
    sync(&mut buf, &mut gpu);
    assert_eq!(gpu.writes.len(), 2);
    sync(&mut buf, &mut gpu);
    assert_eq!(gpu.allocations, 0);
    assert!(gpu.writes.is_empty());
    assert_eq!(buf.next_action(), SyncAction::Done);
}

#[test]
fn empty_collection_allocates_nothing() {
    let mut buf: DynamicBuffer<u32> = DynamicBuffer::new();
    let mut gpu = FakeGpu::new();
    sync(&mut buf, &mut gpu);
    assert_eq!(gpu.allocations, 0);
    assert!(!buf.has_buffer());
    assert!(!buf.take_descriptors_stale());
}

#[test]
fn edited_entry_alone_is_rewritten_in_place() {
    let mut buf = DynamicBuffer::new();
    for v in 0..4u32 {
        buf.push(v);
    }
    let mut gpu = FakeGpu::new();
    sync(&mut buf, &mut gpu);
    assert!(buf.take_descriptors_stale());

    buf.set(2, 42);
    assert!(buf.get(2).dirty);
    sync(&mut buf, &mut gpu);
    assert_eq!(gpu.allocations, 0);
    assert_eq!(gpu.writes, vec![2]);
    assert_eq!(gpu.slots[2], Some(42));
    assert!(!buf.take_descriptors_stale());

    buf.mark_dirty(0);
    buf.mark_dirty(3);
    sync(&mut buf, &mut gpu);
    assert_eq!(gpu.writes, vec![0, 3]);
    assert!(all_clean(&buf));
}

#[test]
fn failed_write_reallocates_and_rewrites_all() {
    let mut buf = DynamicBuffer::new();
    for v in 0..3u32 {
        buf.push(v);
    }
    let mut gpu = FakeGpu::new();
    sync(&mut buf, &mut gpu);
    buf.take_descriptors_stale();

    buf.set(1, 7);
    gpu.failures_left = 1;
    sync(&mut buf, &mut gpu);
    assert_eq!(gpu.allocations, 1);
    assert_eq!(gpu.slots.len(), 3);
    assert_eq!(gpu.writes, vec![0, 1, 2]);
    assert_eq!(gpu.slots, vec![Some(0), Some(7), Some(2)]);
    assert!(all_clean(&buf));
    assert!(buf.take_descriptors_stale());
}

#[test]
fn failed_write_keeps_the_flag_raised() {
    let mut buf = DynamicBuffer::new();
    buf.push(5u32);
    assert_eq!(buf.next_action(), SyncAction::Allocate(1));
    buf.complete_allocation();
    assert_eq!(buf.next_action(), SyncAction::Write(0));
    buf.complete_write(false);
    assert!(buf.get(0).dirty);
    assert_eq!(buf.next_action(), SyncAction::Allocate(1));
}

#[test]
fn new_entries_get_their_position_as_index() {
    let mut buf = DynamicBuffer::new();
    assert_eq!(buf.push(9u32), 0);
    assert_eq!(buf.push(8u32), 1);
    assert_eq!(buf.get(0).index, 0);
    assert_eq!(buf.get(1).index, 1);
    assert!(buf.get(1).dirty);
    assert_eq!(buf.get(1).value, 8);
    assert!(buf.is_idle());
}

#[test]
fn outstanding_action_is_handed_out_again() {
    let mut buf = DynamicBuffer::new();
    buf.push(3u32);
    assert_eq!(buf.next_action(), SyncAction::Allocate(1));
    assert_eq!(buf.next_action(), SyncAction::Allocate(1));
    buf.complete_allocation();
    assert_eq!(buf.next_action(), SyncAction::Write(0));
    assert_eq!(buf.next_action(), SyncAction::Write(0));
    assert!(!buf.is_idle());
    buf.complete_write(true);
    assert!(buf.is_idle());
    assert_eq!(buf.next_action(), SyncAction::Done);
}
