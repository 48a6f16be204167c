//! A load-generation harness for benchmarking a remote storage-read endpoint:
//! randomized point-read tasks are generated at a fixed cadence, fanned out
//! through a queue, and executed by a pool of concurrent workers.
//!
//! This crate holds the verified core: the task model, the queue's delivery
//! discipline, the worker state machine, the generator's per-tick step, and
//! the pool startup policy. The asynchronous shell (timers, channel transport,
//! the remote calls themselves) lives outside it and drives these functions.

pub mod generator;
pub mod pool;
pub mod queue;
pub mod task;
pub mod worker;
