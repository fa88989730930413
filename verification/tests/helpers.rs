//! Tests of the bounded window and the cyclic counter.

use chipa_ta::helper_types::{Cycle, Queue};

#[test]
fn test_queue_overflow() {
    let mut queue: Queue<i32> = Queue::new(10).unwrap();
    for i in 0..12 {
        queue.push_back(i);
    }
    queue.pop_front();
    assert!(queue.len() == 11)
}

#[test]
fn queue_rejects_zero_capacity() {
    assert!(Queue::<i32>::new(0).is_err());
    assert!(Cycle::new(0).is_err());
}

#[test]
fn queue_evicts_in_insertion_order() {
    // Pushing beyond the capacity evicts exactly the element pushed three
    // pushes earlier, and the length never exceeds the capacity.
    let mut q: Queue<u32> = Queue::new(3).unwrap();
    assert_eq!(q.push(1), None);
    assert_eq!(q.push(2), None);
    assert_eq!(q.push(3), None);
    assert_eq!(q.push(4), Some(1));
    assert_eq!(q.push(5), Some(2));
    assert_eq!(q.len(), 3);
    assert_eq!(*q.first().unwrap(), 3);
}

#[test]
fn next_with_is_push() {
    let mut q: Queue<u8> = Queue::new(2).unwrap();
    assert_eq!(q.next_with(7), None);
    assert_eq!(q.next_with(8), None);
    assert_eq!(q.next_with(9), Some(7));
}

#[test]
fn cycle_wraps_at_period() {
    let mut c = Cycle::new(3).unwrap();
    assert_eq!(c.index(), 0);
    assert_eq!(c.next_idx(), 1);
    assert_eq!(c.next_idx(), 2);
    assert_eq!(c.next_idx(), 0);
    c.next_silence();
    assert_eq!(c.index(), 1);
    c.reset();
    assert_eq!(c.index(), 0);
    assert_eq!(c.period(), 3);
}
