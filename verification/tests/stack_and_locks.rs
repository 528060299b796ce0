use sync_primitives::lock_free_stack::LockFreeStack;
use sync_primitives::spinlock::Spinlock;

// The round trip of the stack: push a, push b, then pop b, pop a, and
// an empty pop.
#[test]
fn stack_round_trip() {
    let mut stack = LockFreeStack::new();
    stack.push('a');
    stack.push('b');
    assert_eq!(stack.pop(), Some('b'));
    assert_eq!(stack.pop(), Some('a'));
    assert_eq!(stack.pop(), None);
}

// Exactly-once delivery: draining the stack returns every pushed value
// exactly once (in reverse order of the pushes).
#[test]
fn stack_delivers_each_value_exactly_once() {
    let pushed = vec![3, 1, 4, 1, 5, 9, 2, 6];
    let mut stack = LockFreeStack::new();
    for v in &pushed {
        stack.push(*v);
    }
    let mut delivered = Vec::new();
    while let Some(v) = stack.pop() {
        delivered.push(v);
    }
    let mut reversed = pushed.clone();
    reversed.reverse();
    assert_eq!(delivered, reversed);

    let mut delivered_sorted = delivered;
    let mut pushed_sorted = pushed;
    delivered_sorted.sort();
    pushed_sorted.sort();
    assert_eq!(delivered_sorted, pushed_sorted);
}

#[test]
fn stack_len_tracks_pushes_and_pops() {
    let mut stack = LockFreeStack::new();
    assert_eq!(stack.len(), 0);
    stack.push(1);
    stack.push(2);
    assert_eq!(stack.len(), 2);
    stack.pop();
    assert_eq!(stack.len(), 1);
}

#[test]
fn spinlock_lock_and_unlock() {
    let mut lock = Spinlock::new();
    assert!(!lock.is_locked());
    lock.lock();
    assert!(lock.is_locked());
    lock.unlock();
    assert!(!lock.is_locked());
}

#[test]
fn spinlock_try_lock_fails_while_held() {
    let mut lock = Spinlock::new();
    assert!(lock.try_lock());
    assert!(lock.is_locked());
    assert!(!lock.try_lock());
    assert!(lock.is_locked());
    lock.unlock();
    assert!(lock.try_lock());
}
