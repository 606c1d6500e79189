use io_uring_zcrx::rqueue::{Entry, Inner, PushError, RefillQueue};
use io_uring_zcrx::sys::io_uring_zcrx_rqe;
use io_uring_zcrx::BorrowedBuffer;

fn entry(off: u64, len: u32) -> Entry {
    Entry(io_uring_zcrx_rqe { off, len, __pad: 0 })
}

fn queue(entries: u32, head: u32, tail: u32) -> RefillQueue {
    let inner = Inner::new(entries, 0, 64, 128).unwrap();
    RefillQueue::new(&inner, head, tail).unwrap()
}

#[test]
fn geometry_rejects_counts_that_are_not_powers_of_two() {
    assert!(Inner::new(0, 0, 64, 128).is_none());
    assert!(Inner::new(3, 0, 64, 128).is_none());
    assert!(Inner::new(1000, 0, 64, 128).is_none());
    let g = Inner::new(1024, 0, 64, 128).unwrap();
    assert_eq!(g.ring_entries(), 1024);
    assert_eq!((g.head_offset(), g.tail_offset(), g.rqes_offset()), (0, 64, 128));
    assert!(Inner::new(1, 0, 0, 0).is_some());
    assert!(Inner::new(0x8000_0000, 0, 0, 0).is_some());
}

#[test]
fn cursor_rejects_counters_further_apart_than_the_ring() {
    let inner = Inner::new(8, 0, 64, 128).unwrap();
    assert!(RefillQueue::new(&inner, 0, 9).is_none());
    assert!(RefillQueue::new(&inner, 0, 8).is_some());
    let q = RefillQueue::new(&inner, u32::MAX - 2, 5).unwrap();
    assert_eq!(q.len(), 8);
    assert!(q.is_full());
}

#[test]
fn capacity_is_the_entry_count_and_stays() {
    let mut q = queue(16, 0, 0);
    assert_eq!(q.capacity(), 16);
    for i in 0..16u64 {
        q.push(&entry(i * 100, 100)).unwrap();
        assert_eq!(q.capacity(), 16);
    }
    assert!(q.push(&entry(0, 1)).is_err());
    assert_eq!(q.capacity(), 16);
}

#[test]
fn len_counts_pushes_and_full_at_capacity() {
    let mut q = queue(4, 0, 0);
    assert!(q.is_empty());
    for n in 1..=4usize {
        assert!(!q.is_full());
        q.push(&entry(n as u64, 1)).unwrap();
        assert_eq!(q.len(), n);
        assert_eq!(q.is_full(), n == 4);
        assert!(!q.is_empty());
    }
}

#[test]
fn push_to_full_ring_changes_nothing() {
    let mut q = queue(2, 7, 7);
    q.push(&entry(0, 1)).unwrap();
    q.push(&entry(1, 1)).unwrap();
    assert_eq!(q.push(&entry(2, 1)), Err(PushError));
    assert_eq!(q.len(), 2);
    let writes = q.publish();
    assert_eq!(writes.len(), 2);
    assert_eq!(q.published_tail(), 9);
}

#[test]
fn push_multiple_is_all_or_nothing() {
    let mut q = queue(4, 0, 0);
    q.push(&entry(0, 1)).unwrap();
    let batch = [entry(10, 1), entry(20, 1), entry(30, 1), entry(40, 1)];
    assert_eq!(q.push_multiple(&batch), Err(PushError));
    assert_eq!(q.len(), 1);
    let writes = q.publish();
    assert_eq!(writes.len(), 1);
    assert_eq!(q.published_tail(), 1);
    assert_eq!(q.push_multiple(&batch[..3]), Ok(()));
    assert_eq!(q.len(), 4);
    assert!(q.is_full());
    let writes = q.publish();
    let offsets: Vec<(usize, u64)> = writes.iter().map(|(i, e)| (*i, e.buffer_offset())).collect();
    assert_eq!(offsets, vec![(1, 10), (2, 20), (3, 30)]);
    assert_eq!(q.push_multiple(&[]), Ok(()));
}

#[test]
fn publish_wraps_slots_around_the_ring() {
    let mut q = queue(4, u32::MAX - 1, u32::MAX - 1);
    q.push_multiple(&[entry(1, 1), entry(2, 2), entry(3, 3)]).unwrap();
    let writes = q.publish();
    let slots: Vec<usize> = writes.iter().map(|(i, _)| *i).collect();
    assert_eq!(slots, vec![2, 3, 0]);
    assert_eq!(writes[2].1.len(), 3);
    assert_eq!(q.published_tail(), 1);
    assert_eq!(q.len(), 3);
    assert!(q.publish().is_empty());
}

#[test]
fn refresh_head_takes_only_published_progress() {
    let mut q = queue(8, 0, 0);
    q.push_multiple(&[entry(1, 1), entry(2, 1), entry(3, 1)]).unwrap();
    // nothing published yet: the kernel cannot have moved
    assert!(!q.refresh_head(1));
    assert_eq!(q.len(), 3);
    q.publish();
    assert!(!q.refresh_head(4));
    assert!(q.refresh_head(2));
    assert_eq!(q.len(), 1);
    assert!(q.refresh_head(2));
    assert!(!q.refresh_head(1));
    assert!(q.refresh_head(3));
    assert!(q.is_empty());
}

#[test]
fn full_ring_of_1024_recovers_after_sync() {
    let mut q = queue(1024, 0, 0);
    let mut area = vec![0u8; 1 << 20];
    let token = 1u64 << 48;
    for i in 0..1024u64 {
        let start = (i * 1500) as usize % (1 << 20);
        let end = (start + 1500).min(1 << 20);
        let e = BorrowedBuffer::new(&mut area[start..end], i * 1500, token).into_refill_entry();
        assert_eq!(e.buffer_offset(), i * 1500);
        assert_eq!(e.area_token(), token);
        q.push(&e).unwrap();
    }
    assert!(q.is_full());
    assert_eq!(q.push(&entry(1024 * 1500, 1500)), Err(PushError));
    let writes = q.publish();
    assert_eq!(writes.len(), 1024);
    assert_eq!(writes[1023].0, 1023);
    assert_eq!(q.published_tail(), 1024);
    // the kernel has consumed everything
    assert!(q.refresh_head(1024));
    assert!(q.is_empty());
    assert_eq!(q.push(&entry(1024 * 1500, 1500)), Ok(()));
    assert_eq!(q.len(), 1);
}

#[test]
fn push_error_message() {
    assert_eq!(PushError.message(), "refill queue is full");
}
