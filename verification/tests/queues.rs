use sync_primitives::bounded_queue::BoundedBlockingQueue;
use sync_primitives::errors::SyncError;
use sync_primitives::mpmc_queue::MPMCQueue;
use sync_primitives::work_stealing::WorkStealingQueue;

// A serialized interleaving of put and take calls on a queue of
// capacity 3: the observed length never exceeds the capacity and never
// drops below zero, and the boundary calls report WouldBlock instead of
// overshooting.
#[test]
fn bounded_queue_occupancy_stays_within_bounds() {
    let capacity = 3;
    let mut q: BoundedBlockingQueue<i32> = BoundedBlockingQueue::new(capacity);
    let ops: [i32; 12] = [1, 1, -1, 1, 1, 1, -1, -1, 1, -1, -1, -1];
    let mut expected_len = 0;
    for (step, op) in ops.iter().enumerate() {
        if *op > 0 {
            match q.try_put(step as i32) {
                Ok(()) => expected_len += 1,
                Err(_) => assert_eq!(q.len(), capacity),
            }
        } else {
            match q.try_take() {
                Ok(_) => expected_len -= 1,
                Err(e) => {
                    assert_eq!(e, SyncError::WouldBlock);
                    assert_eq!(q.len(), 0);
                }
            }
        }
        assert!(q.len() <= capacity);
        assert_eq!(q.len(), expected_len);
    }
}

#[test]
fn bounded_queue_is_fifo() {
    let mut q = BoundedBlockingQueue::new(4);
    q.put(10);
    q.put(20);
    q.put(30);
    assert_eq!(q.take(), 10);
    assert_eq!(q.take(), 20);
    q.put(40);
    assert_eq!(q.take(), 30);
    assert_eq!(q.take(), 40);
    assert!(q.is_empty());
}

#[test]
fn bounded_queue_full_put_returns_item() {
    let mut q = BoundedBlockingQueue::new(2);
    assert_eq!(q.try_put(1), Ok(()));
    assert_eq!(q.try_put(2), Ok(()));
    assert!(q.is_full());
    assert_eq!(q.try_put(3), Err(3));
    assert_eq!(q.len(), 2);
}

#[test]
fn bounded_queue_capacity_zero_refuses_everything() {
    let mut q = BoundedBlockingQueue::new(0);
    assert!(q.is_full());
    assert!(q.is_empty());
    assert_eq!(q.try_put(7), Err(7));
    assert_eq!(q.try_take(), Err(SyncError::WouldBlock));
}

// Exactly-once delivery on the bounded queue: draining returns every
// value that was put, each exactly once.
#[test]
fn bounded_queue_delivers_each_value_exactly_once() {
    let pushed = vec![4, 8, 15, 16, 23, 42];
    let mut q = BoundedBlockingQueue::new(pushed.len());
    for v in &pushed {
        q.put(*v);
    }
    let mut delivered = Vec::new();
    while let Ok(v) = q.try_take() {
        delivered.push(v);
    }
    assert_eq!(delivered, pushed);
}

// The deadline-bounded variants: while the wait predicate fails, the
// verdict is WouldBlock before the deadline and Timeout from the
// deadline on, with no state change either way.
#[test]
fn deadline_variants_report_timeout() {
    let mut q: BoundedBlockingQueue<i32> = BoundedBlockingQueue::new(1);
    assert_eq!(q.take_deadline(5, 10), Err(SyncError::WouldBlock));
    assert_eq!(q.take_deadline(10, 10), Err(SyncError::Timeout));
    assert_eq!(q.len(), 0);
    q.put(1);
    assert_eq!(q.put_deadline(2, 3, 10), Err((2, SyncError::WouldBlock)));
    assert_eq!(q.put_deadline(2, 10, 10), Err((2, SyncError::Timeout)));
    assert_eq!(q.len(), 1);
    assert_eq!(q.take_deadline(99, 10), Ok(1));
    assert_eq!(q.put_deadline(7, 99, 10), Ok(()));
    assert_eq!(q.take(), 7);

    let mut m: MPMCQueue<i32> = MPMCQueue::new();
    assert_eq!(m.dequeue_deadline(0, 1), Err(SyncError::WouldBlock));
    assert_eq!(m.dequeue_deadline(1, 1), Err(SyncError::Timeout));
    m.enqueue(5);
    assert_eq!(m.dequeue_deadline(1, 1), Ok(5));
}

#[test]
fn mpmc_queue_is_fifo_and_reports_empty() {
    let mut q = MPMCQueue::new();
    assert_eq!(q.dequeue(), None);
    q.enqueue(String::from("first"));
    q.enqueue(String::from("second"));
    assert_eq!(q.len(), 2);
    assert_eq!(q.dequeue(), Some(String::from("first")));
    assert_eq!(q.dequeue_blocking(), "second");
    assert_eq!(q.dequeue(), None);
    assert_eq!(q.len(), 0);
}

// Owner pushes 1..=5 locally; a thief stealing five times receives the
// values in FIFO order from the opposite end.
#[test]
fn work_stealing_steal_is_fifo() {
    let mut q = WorkStealingQueue::new();
    for i in 1..=5 {
        q.push_local(i);
    }
    let mut stolen = Vec::new();
    for _ in 0..5 {
        stolen.push(q.steal().unwrap());
    }
    assert_eq!(stolen, vec![1, 2, 3, 4, 5]);
    assert_eq!(q.steal(), None);
}

// The owner's own pops see the same pushes in LIFO order.
#[test]
fn work_stealing_pop_local_is_lifo() {
    let mut q = WorkStealingQueue::new();
    for i in 1..=5 {
        q.push_local(i);
    }
    let mut popped = Vec::new();
    while let Some(v) = q.pop_local() {
        popped.push(v);
    }
    assert_eq!(popped, vec![5, 4, 3, 2, 1]);
}

#[test]
fn work_stealing_owner_and_thief_share_one_buffer() {
    let mut q = WorkStealingQueue::new();
    q.push_local(1);
    q.push_local(2);
    q.push_local(3);
    assert_eq!(q.steal(), Some(1));
    assert_eq!(q.pop_local(), Some(3));
    assert_eq!(q.len(), 1);
    assert_eq!(q.steal(), Some(2));
    assert_eq!(q.pop_local(), None);
}
