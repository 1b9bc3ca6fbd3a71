use prover::workers::{
    miner_threads, pool_or_error, pool_size, worker_pool, worker_pool_for, WorkerError,
    MINING_INTERVAL_SECS, REQUEST_QUEUE_CAPACITY, WORKER_STACK_SIZE,
};

#[test]
fn miner_threads_is_two_per_eight_cores() {
    assert_eq!(miner_threads(0), 1);
    assert_eq!(miner_threads(1), 1);
    assert_eq!(miner_threads(7), 1);
    assert_eq!(miner_threads(8), 2);
    assert_eq!(miner_threads(15), 2);
    assert_eq!(miner_threads(16), 4);
    assert_eq!(miner_threads(17), 4);
    assert_eq!(miner_threads(64), 16);
    assert_eq!(miner_threads(usize::MAX), usize::MAX / 8 * 2);
}

#[test]
fn constants_have_their_values() {
    assert_eq!(WORKER_STACK_SIZE, 8 * 1024 * 1024);
    assert_eq!(REQUEST_QUEUE_CAPACITY, 1024);
    assert_eq!(MINING_INTERVAL_SECS, 2);
}

#[test]
fn worker_pool_has_the_threads_of_this_machine() {
    let pool = worker_pool().expect("the worker pool could not be built");
    assert_eq!(pool.current_num_threads(), miner_threads(num_cpus::get()));
    assert_eq!(pool_size(&pool), miner_threads(num_cpus::get()));
    assert!(pool_size(&pool) >= 1);
    assert_eq!(pool.install(|| 6 * 7), 42);
}

#[test]
fn pool_or_error_passes_the_pool_on() {
    let built = rayon::ThreadPoolBuilder::new().num_threads(3).build();
    let pool = pool_or_error(built).expect("the pool could not be built");
    assert_eq!(pool.current_num_threads(), 3);
}

#[test]
fn pool_or_error_maps_a_failed_build() {
    // The global pool can be set up once only: the second attempt fails.
    let _ = rayon::ThreadPoolBuilder::new().num_threads(1).build_global();
    let failed = rayon::ThreadPoolBuilder::new().num_threads(1).build_global();
    let error = failed.expect_err("the global pool was set up twice");
    let result = pool_or_error(Err(error));
    assert!(matches!(result, Err(WorkerError::PoolNotBuilt)));
}

#[test]
fn worker_pool_for_has_two_threads_per_eight_cores() {
    for (cores, threads) in [(0, 1), (1, 1), (7, 1), (8, 2), (12, 2), (16, 4), (40, 10)] {
        let pool = worker_pool_for(cores).expect("the worker pool could not be built");
        assert_eq!(pool_size(&pool), threads);
        assert_eq!(pool.current_num_threads(), threads);
    }
}

#[test]
fn pool_size_is_the_number_of_threads() {
    let built = rayon::ThreadPoolBuilder::new().num_threads(5).build();
    let pool = built.expect("the pool could not be built");
    assert_eq!(pool_size(&pool), 5);
}

#[test]
fn worker_threads_have_room_for_deep_calls() {
    // A hundred frames of 32 KiB each: more than 3 MiB of stack.
    let pool = worker_pool_for(8).expect("the worker pool could not be built");
    assert_eq!(pool.install(|| deep(1, 100)), 100);
}

fn deep(seed: u8, depth: u64) -> u64 {
    let frame = [seed; 32 * 1024];
    if depth <= 1 {
        u64::from(frame[depth as usize])
    } else {
        u64::from(frame[0]) + deep(seed, depth - 1)
    }
}
