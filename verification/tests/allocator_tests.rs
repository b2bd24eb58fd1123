use ws_echo::WorkerIdAllocator;

#[test]
fn allocator_starts_at_zero_and_counts_up() {
    let mut a = WorkerIdAllocator::new();
    assert!(a.can_allocate());
    assert_eq!(a.next_worker_id(), 0);
    assert_eq!(a.next_worker_id(), 1);
    assert_eq!(a.next_worker_id(), 2);
}

#[test]
fn allocator_ids_distinct_and_increasing() {
    let mut a = WorkerIdAllocator::new();
    let mut ids: Vec<usize> = vec![];
    for _ in 0..100 {
        assert!(a.can_allocate());
        ids.push(a.next_worker_id());
    }
    for i in 0..ids.len() {
        for j in (i + 1)..ids.len() {
            assert!(ids[i] < ids[j]);
            assert_ne!(ids[i], ids[j]);
        }
    }
}
