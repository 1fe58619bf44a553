use wavefront::workqueue::{check_schedule, push_all_scheduled, WorkQueue};

#[test]
fn new_queue_is_empty_with_given_capacity() {
    let q: WorkQueue<u32> = WorkQueue::new(8, 0);
    assert_eq!(q.len(), 0);
    assert_eq!(q.cap(), 8);
    assert_eq!(q.items(), Vec::<u32>::new());
}

#[test]
fn push_assigns_sequential_slots() {
    let mut q: WorkQueue<u32> = WorkQueue::new(4, 0);
    assert_eq!(q.push(10), 0);
    assert_eq!(q.push(20), 1);
    assert_eq!(q.push(30), 2);
    assert_eq!(q.len(), 3);
    assert_eq!(*q.item(0), 10);
    assert_eq!(*q.item(1), 20);
    assert_eq!(*q.item(2), 30);
    assert_eq!(q.items(), vec![10, 20, 30]);
}

#[test]
fn try_push_fails_exactly_at_capacity() {
    let mut q: WorkQueue<u64> = WorkQueue::new(2, 0);
    assert_eq!(q.try_push(5), Some(0));
    assert_eq!(q.try_push(6), Some(1));
    // The queue is at capacity: the overflowing push is detected and
    // nothing is lost or truncated.
    assert_eq!(q.try_push(7), None);
    assert_eq!(q.len(), 2);
    assert_eq!(q.items(), vec![5, 6]);
}

#[test]
fn item_mut_rewrites_one_slot() {
    let mut q: WorkQueue<u32> = WorkQueue::new(3, 0);
    q.push(1);
    q.push(2);
    *q.item_mut(0) = 9;
    assert_eq!(q.items(), vec![9, 2]);
    assert_eq!(q.len(), 2);
}

#[test]
fn clear_resets_length_and_keeps_capacity_and_storage() {
    let mut q: WorkQueue<u32> = WorkQueue::new(3, 0);
    q.push(7);
    q.push(8);
    q.clear();
    assert_eq!(q.len(), 0);
    assert_eq!(q.cap(), 3);
    // Previously written storage is untouched by clear ...
    assert_eq!(q.storage[0], 7);
    assert_eq!(q.storage[1], 8);
    // ... but no longer reachable as items: a smaller re-population does
    // not expose stale entries beyond the new length.
    q.push(5);
    assert_eq!(q.items(), vec![5]);
}

#[test]
fn check_schedule_accepts_permutations_only() {
    assert!(check_schedule(&vec![2, 0, 3, 1], 4));
    assert!(check_schedule(&vec![0], 1));
    assert!(check_schedule(&vec![], 0));
    // wrong length
    assert!(!check_schedule(&vec![0, 1], 3));
    // out of range
    assert!(!check_schedule(&vec![0, 2], 2));
    // duplicate
    assert!(!check_schedule(&vec![1, 1], 2));
}

#[test]
fn scheduled_pushes_preserve_the_item_multiset() {
    // Four producers retire in the order 2, 0, 3, 1: the appended run is a
    // permutation of the items, its length is exactly the producer count.
    let items: Vec<u32> = vec![10, 20, 30, 40];
    let schedule: Vec<usize> = vec![2, 0, 3, 1];
    assert!(check_schedule(&schedule, items.len()));
    let mut q: WorkQueue<u32> = WorkQueue::new(4, 0);
    push_all_scheduled(&mut q, &items, &schedule);
    assert_eq!(q.len(), 4);
    assert_eq!(q.items(), vec![30, 10, 40, 20]);
    let mut sorted = q.items();
    sorted.sort();
    assert_eq!(sorted, items);
}

#[test]
fn scheduled_pushes_agree_across_interleavings() {
    let items: Vec<u32> = vec![3, 1, 4, 1, 5];
    let schedules: Vec<Vec<usize>> = vec![
        vec![0, 1, 2, 3, 4],
        vec![4, 3, 2, 1, 0],
        vec![2, 4, 0, 1, 3],
    ];
    let mut stored: Vec<Vec<u32>> = Vec::new();
    for schedule in &schedules {
        assert!(check_schedule(schedule, items.len()));
        let mut q: WorkQueue<u32> = WorkQueue::new(8, 0);
        push_all_scheduled(&mut q, &items, schedule);
        assert_eq!(q.len(), 5);
        let mut run = q.items();
        run.sort();
        stored.push(run);
    }
    assert_eq!(stored[0], stored[1]);
    assert_eq!(stored[1], stored[2]);
    let mut expected = items.clone();
    expected.sort();
    assert_eq!(stored[0], expected);
}
