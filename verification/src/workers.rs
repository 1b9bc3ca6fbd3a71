//! The worker pool on which mining runs, apart from the threads that
//! coordinate: how many threads it has, and how it is built.

use vstd::prelude::*;

verus! {

/// The stack of each worker thread, in bytes: 8 MiB, for deep computations.
pub const WORKER_STACK_SIZE: usize = 8388608;

/// How many requests the prover's queue holds before a sender has to wait.
pub const REQUEST_QUEUE_CAPACITY: usize = 1024;

/// The time between two looks of the mining scheduler, in seconds.
pub const MINING_INTERVAL_SECS: u64 = 2;

/// `rayon::ThreadPool`, a pool of worker threads. Nothing is known of what
/// is inside: the library builds one and hands it on.
#[verifier::external_type_specification]
#[verifier::external_body]
pub struct ExThreadPool(rayon::ThreadPool);

/// `rayon::ThreadPoolBuildError`, the error of a pool that could not be
/// built. Nothing is known of what is inside.
#[verifier::external_type_specification]
#[verifier::external_body]
pub struct ExThreadPoolBuildError(rayon::ThreadPoolBuildError);

/// Why the worker pool could not be set up.
#[derive(Clone, Copy, Debug, PartialEq, Eq, Structural)]
pub enum WorkerError {
    /// The threads of the pool could not be started.
    PoolNotBuilt,
}

/// The number of worker threads on a machine with `cores` cores: two for
/// every full eight cores, and never fewer than one.
pub open spec fn spec_miner_threads(cores: nat) -> nat {
    if cores / 8 * 2 >= 1 {
        cores / 8 * 2
    } else {
        1
    }
}

/// Returns the number of worker threads for a machine with `cores` cores.
pub fn miner_threads(cores: usize) -> (threads: usize)
    ensures
        threads == spec_miner_threads(cores as nat),
        1 <= threads,
        threads <= cores || threads == 1,
{
    let by_cores: usize = cores / 8 * 2;
    if by_cores >= 1 {
        by_cores
    } else {
        1
    }
}

/// The number of threads of a pool: what `rayon::ThreadPool::current_num_threads`
/// returns for it. A pool keeps the threads that it was built with.
pub uninterp spec fn pool_threads(pool: rayon::ThreadPool) -> nat;

/// Calls `num_cpus::get`, the number of logical cores that this process
/// may use. Nothing is claimed of the number: it depends on the machine.
#[verifier::external_body]
fn available_cores() -> (cores: usize) {
    num_cpus::get()
}

/// Calls `build` on a `rayon::ThreadPoolBuilder` that was given the stack
/// size and the number of threads. Whether the threads start depends on
/// the machine, so nothing is claimed of success. A pool that was built
/// has the number of threads asked for, or fewer where that number is over
/// the most that one pool can have, which is 255 on the smallest targets.
#[verifier::external_body]
fn build_thread_pool(stack_size: usize, num_threads: usize) -> (result: Result<
    rayon::ThreadPool,
    rayon::ThreadPoolBuildError,
>)
    requires
        num_threads >= 1,
    ensures
        result matches Ok(pool) ==> 1 <= pool_threads(pool) <= num_threads && (num_threads <= 255
            ==> pool_threads(pool) == num_threads),
{
    rayon::ThreadPoolBuilder::new().stack_size(stack_size).num_threads(num_threads).build()
}

/// Calls `rayon::ThreadPool::current_num_threads`, the number of threads
/// of the pool.
#[verifier::external_body]
fn current_num_threads(pool: &rayon::ThreadPool) -> (n: usize)
    ensures
        n == pool_threads(*pool),
{
    pool.current_num_threads()
}

/// Returns the number of threads of `pool`.
pub fn pool_size(pool: &rayon::ThreadPool) -> (n: usize)
    ensures
        n == pool_threads(*pool),
{
    current_num_threads(pool)
}

/// What `worker_pool` returns for each outcome of the build: the pool, or
/// the error that says that there is none.
pub fn pool_or_error(built: Result<rayon::ThreadPool, rayon::ThreadPoolBuildError>) -> (result:
    Result<rayon::ThreadPool, WorkerError>)
    ensures
        match built {
            Ok(pool) => result == Ok::<rayon::ThreadPool, WorkerError>(pool),
            Err(_) => result == Err::<rayon::ThreadPool, WorkerError>(WorkerError::PoolNotBuilt),
        },
{
    match built {
        Ok(pool) => Ok(pool),
        Err(_) => Err(WorkerError::PoolNotBuilt),
    }
}

/// Builds the worker pool for a machine with `cores` cores, each thread
/// with a stack of `WORKER_STACK_SIZE` bytes. A pool that was built has
/// the threads that `miner_threads` gives for `cores`, or fewer where that
/// number is over the most that one pool can have.
pub fn worker_pool_for(cores: usize) -> (result: Result<rayon::ThreadPool, WorkerError>)
    ensures
        result matches Ok(pool) ==> 1 <= pool_threads(pool) <= spec_miner_threads(cores as nat)
            && (spec_miner_threads(cores as nat) <= 255 ==> pool_threads(pool)
            == spec_miner_threads(cores as nat)),
{
    let threads = miner_threads(cores);
    pool_or_error(build_thread_pool(WORKER_STACK_SIZE, threads))
}

/// Builds the worker pool for mining, sized by the cores of this machine,
/// each thread with a stack of `WORKER_STACK_SIZE` bytes.
pub fn worker_pool() -> (result: Result<rayon::ThreadPool, WorkerError>)
    ensures
        result matches Ok(pool) ==> 1 <= pool_threads(pool),
{
    worker_pool_for(available_cores())
}

} // verus!
