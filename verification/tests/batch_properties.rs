use std::cell::RefCell;

use threadpool::{
    collect_filled, foreach_sequential, map_sequential, run_foreach_worker, run_map_worker,
    worker_transition, Cursor, ThreadPool, WorkerEvent, WorkerState,
};

#[test]
fn test_exactly_once_coverage() {
    // Side-channel visit counters: element i of the identity sequence is the
    // index i, so counting values counts visited indices.
    let length: usize = 1024;
    for workers in [1usize, 2, 4, 7] {
        let mut data: Vec<usize> = (0..length).collect();
        let visits: RefCell<Vec<usize>> = RefCell::new(vec![0; length]);
        let mut pool = ThreadPool::new(workers);
        pool.foreach(&mut data, |x: &usize| {
            visits.borrow_mut()[*x] += 1;
            *x
        });
        assert!(visits.borrow().iter().all(|c| *c == 1));

        let mapped = pool.map(&data, |x: &usize| {
            visits.borrow_mut()[*x] += 1;
            *x
        });
        assert_eq!(mapped, data);
        assert!(visits.borrow().iter().all(|c| *c == 2));
    }
}

#[test]
fn test_single_worker_matches_sequential_loop() {
    let data: Vec<usize> = (0..4096).collect();
    let mut sequential: Vec<usize> = Vec::new();
    for x in &data {
        sequential.push(*x + *x);
    }
    assert_eq!(map_sequential(&data, |x: &usize| *x + *x), sequential);

    let mut pool = ThreadPool::new(1);
    let mapped = pool.map(&data, |x: &usize| *x + *x);
    assert_eq!(mapped, sequential);

    let mut in_place = data.clone();
    pool.foreach(&mut in_place, |x: &usize| *x + *x);
    assert_eq!(in_place, sequential);

    let mut in_place_seq = data.clone();
    foreach_sequential(&mut in_place_seq, |x: &usize| *x + *x);
    assert_eq!(in_place_seq, sequential);
}

#[test]
fn test_output_independent_of_worker_count() {
    let data: Vec<usize> = (0..4096).collect();
    let mut pool_one = ThreadPool::new(1);
    let expected = pool_one.map(&data, |x: &usize| *x * 3 + 1);
    for workers in [2usize, 3, 8, 16] {
        let mut pool = ThreadPool::new(workers);
        let mapped = pool.map(&data, |x: &usize| *x * 3 + 1);
        assert_eq!(mapped, expected);
    }
}

#[test]
fn test_empty_input_returns_immediately() {
    for workers in [1usize, 2, 5] {
        let mut pool = ThreadPool::new(workers);
        let mut data: Vec<usize> = Vec::new();
        let mapped: Vec<usize> = pool.map(&data, |x: &usize| *x + 1);
        assert!(mapped.is_empty());
        pool.foreach(&mut data, |x: &usize| *x + 1);
        assert!(data.is_empty());
    }
}

#[test]
fn test_foreach_twice_doubles_twice() {
    let mut data: Vec<usize> = (0..256).collect();
    let mut pool = ThreadPool::new(2);
    pool.foreach(&mut data, |x: &usize| *x + *x);
    pool.foreach(&mut data, |x: &usize| *x + *x);
    assert!(data.iter().enumerate().all(|(i, x)| *x == 4 * i));
}

#[test]
fn test_cursor_hands_out_each_index_once() {
    let mut cursor = Cursor::new();
    assert_eq!(cursor.claim(3), Some(0));
    assert_eq!(cursor.claim(3), Some(1));
    assert_eq!(cursor.claim(3), Some(2));
    assert_eq!(cursor.claim(3), None);
    assert_eq!(cursor.claim(3), None);
}

#[test]
fn test_cursor_empty_batch_is_exhausted() {
    let mut cursor = Cursor::new();
    assert_eq!(cursor.claim(0), None);
}

#[test]
fn test_worker_processes_only_unclaimed_indices() {
    let mut cursor = Cursor::new();
    assert_eq!(cursor.claim(5), Some(0));
    assert_eq!(cursor.claim(5), Some(1));
    let mut data: Vec<u64> = vec![10, 11, 12, 13, 14];
    run_foreach_worker(&mut cursor, &mut data, |x: &u64| *x + 100);
    assert_eq!(data, vec![10, 11, 112, 113, 114]);
}

#[test]
fn test_map_worker_fills_only_unclaimed_slots() {
    let mut cursor = Cursor::new();
    assert_eq!(cursor.claim(4), Some(0));
    let input: Vec<u32> = vec![1, 2, 3, 4];
    let mut slots: Vec<Option<u32>> = vec![Some(99), None, None, None];
    run_map_worker(&mut cursor, &input, &mut slots, |x: &u32| *x * 10);
    assert_eq!(slots, vec![Some(99), Some(20), Some(30), Some(40)]);
}

#[test]
fn test_collect_filled_strips_slots() {
    let slots: Vec<Option<u32>> = vec![Some(4), Some(5), Some(6)];
    assert_eq!(collect_filled(slots), vec![4, 5, 6]);
    let empty: Vec<Option<u32>> = Vec::new();
    assert!(collect_filled(empty).is_empty());
}

#[test]
fn test_constructed_worker_counts() {
    assert_eq!(ThreadPool::new(3).num_workers(), 3);
    assert_eq!(ThreadPool::new(1).num_workers(), 1);
    assert_eq!(ThreadPool::new_max_parallelism(Some(6)).num_workers(), 6);
    assert_eq!(ThreadPool::new_max_parallelism(Some(0)).num_workers(), 1);
    assert_eq!(ThreadPool::new_max_parallelism(None).num_workers(), 1);
}

#[test]
fn test_worker_lifecycle_transitions() {
    let running = worker_transition(WorkerState::Idle, WorkerEvent::BatchReceived);
    assert_eq!(running, WorkerState::Running);
    let idle = worker_transition(running, WorkerEvent::BatchExhausted);
    assert_eq!(idle, WorkerState::Idle);
    let stopped = worker_transition(idle, WorkerEvent::ChannelClosed);
    assert_eq!(stopped, WorkerState::Stopped);
}

#[test]
fn test_captured_state_applied_uniformly() {
    let offset: usize = 10;
    let mut data: Vec<usize> = (0..65536).collect();
    let mut pool = ThreadPool::new(1);
    pool.foreach(&mut data, |x: &usize| *x + offset);
    assert!(data.iter().enumerate().all(|(i, x)| *x == i + 10));
}
