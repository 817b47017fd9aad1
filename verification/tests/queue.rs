use actor_core::queue::Queue;

#[test]
fn new_queue_is_empty() {
    let q: Queue<u32> = Queue::new(4);
    assert!(q.is_empty());
    assert!(!q.is_full());
    assert_eq!(q.len(), 0);
    assert_eq!(q.capacity(), 4);
}

#[test]
fn delivery_is_most_recent_first() {
    let mut q: Queue<u32> = Queue::new(4);
    assert!(q.send_isr(1).is_ok());
    assert!(q.send_isr(2).is_ok());
    assert!(q.send_isr(3).is_ok());
    assert_eq!(q.try_recv(), Some(3));
    assert_eq!(q.try_recv(), Some(2));
    assert_eq!(q.try_recv(), Some(1));
    assert_eq!(q.try_recv(), None);
}

#[test]
fn send_isr_on_full_queue_fails_without_insertion() {
    let mut q: Queue<u32> = Queue::new(2);
    assert!(q.send_isr(10).is_ok());
    assert!(q.send_isr(20).is_ok());
    assert!(q.is_full());
    // Capacity exhausted: the item comes back and nothing is inserted.
    assert_eq!(q.send_isr(30), Err(30));
    assert_eq!(q.len(), 2);
    // Once one item is consumed there is room again, so a retried send
    // completes; a blocking sender is exactly this retry.
    assert_eq!(q.try_recv(), Some(20));
    assert_eq!(q.send_isr(30), Ok(()));
    assert_eq!(q.try_recv(), Some(30));
    assert_eq!(q.try_recv(), Some(10));
}

#[test]
fn zero_duration_poll_on_empty_queue_returns_nothing() {
    let mut q: Queue<u8> = Queue::new(1);
    assert_eq!(q.try_recv(), None);
    assert_eq!(q.len(), 0);
}

#[test]
fn drain_returns_leftovers_in_delivery_order() {
    let mut q: Queue<u32> = Queue::new(3);
    assert!(q.send_isr(1).is_ok());
    assert!(q.send_isr(2).is_ok());
    assert!(q.send_isr(3).is_ok());
    let left = q.drain();
    assert_eq!(left, vec![3, 2, 1]);
    assert!(q.is_empty());
    assert_eq!(q.capacity(), 3);
}
