//! Bounds and errors of the background download pool.
use vstd::prelude::*;

verus! {

/// Represents errors that can occur when submitting a job to the pool.
#[derive(Debug, Clone, Copy, PartialEq, Eq, Structural)]
pub enum PoolError {
    /// The job queue is full and cannot accept new jobs at this time.
    QueueFull,
    /// The worker pool has been shut down and can no longer accept jobs.
    QueueClosed,
}

/// A unit of work representing a single URL to be downloaded.
#[derive(Debug, Clone)]
pub struct DownloadJob {
    /// The URL of the media to be downloaded.
    pub url: String,
}

/// Smallest number of concurrent workers of a pool.
pub const MIN_WORKERS: usize = 1;

/// Largest number of concurrent workers of a pool.
pub const MAX_WORKERS: usize = 512;

/// Capacity of the pool's job queue.
pub const QUEUE_CAPACITY: usize = 10000;

/// The number of workers a pool runs for a requested concurrency limit:
/// the request clamped between 1 and 512.
pub fn worker_limit(concurrency_limit: usize) -> (n: usize)
    ensures
        MIN_WORKERS <= n <= MAX_WORKERS,
        MIN_WORKERS <= concurrency_limit <= MAX_WORKERS ==> n == concurrency_limit,
        concurrency_limit < MIN_WORKERS ==> n == MIN_WORKERS,
        concurrency_limit > MAX_WORKERS ==> n == MAX_WORKERS,
{
    if concurrency_limit < MIN_WORKERS {
        MIN_WORKERS
    } else if concurrency_limit > MAX_WORKERS {
        MAX_WORKERS
    } else {
        concurrency_limit
    }
}

} // verus!
