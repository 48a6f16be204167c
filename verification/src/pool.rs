//! The worker pool's configuration and startup policy.
//!
//! The pool runs one worker per available parallel execution unit. Each
//! worker, at startup, constructs its own connection to the provider from
//! the shared configuration: a transport mode and the endpoint that goes
//! with it. Construction failure in any worker is fatal for the whole
//! startup — there is no partial-pool operation — and it is decided before
//! any worker begins, hence before any task is dequeued.

use vstd::prelude::*;

verus! {

/// The transport mode, chosen once at startup.
#[derive(Clone, Copy, PartialEq, Eq, Structural, Debug)]
pub enum Mode {
    /// Stateless transport: one logical connection per call; construction
    /// only validates the endpoint address.
    Direct,
    /// A long-lived session per worker; construction performs a real
    /// handshake and can fail on reachability.
    Persistent,
}

/// A construction-time connection failure. Fatal: it aborts pool startup.
#[derive(Debug)]
pub enum ConnectionError {
    /// The endpoint address did not parse.
    InvalidEndpoint { detail: String },
    /// The handshake failed or the endpoint was unreachable.
    HandshakeFailed { detail: String },
}

/// The default endpoint for each mode.
pub open spec fn spec_default_endpoint(mode: Mode) -> Seq<char> {
    match mode {
        Mode::Direct => "http://localhost:15014"@,
        Mode::Persistent => "ws://localhost:16014"@,
    }
}

/// The embedded default endpoint for `mode`.
pub fn default_endpoint(mode: Mode) -> (r: &'static str)
    ensures
        r@ == spec_default_endpoint(mode),
{
    match mode {
        Mode::Direct => "http://localhost:15014",
        Mode::Persistent => "ws://localhost:16014",
    }
}

/// Relies on `num_cpus::get`: the number of available parallel execution
/// units, honouring scheduler affinity and container limits; its
/// documentation promises at least 1.
#[verifier::external_body]
fn available_parallel_units() -> (n: usize)
    ensures
        n >= 1,
{
    num_cpus::get()
}

/// The pool size: one worker per available parallel execution unit, derived
/// from the host configuration rather than hardcoded. At least one worker.
pub fn pool_size() -> (n: usize)
    ensures
        n >= 1,
{
    available_parallel_units()
}

/// The identities of a pool of `n` workers: `0` up to `n - 1`, each distinct.
pub fn worker_ids(n: usize) -> (ids: Vec<usize>)
    ensures
        ids@.len() == n,
        forall|i: int| 0 <= i < n ==> ids@[i] == i,
{
    let mut ids: Vec<usize> = Vec::new();
    let mut i: usize = 0;
    while i < n
        invariant
            i <= n,
            ids@.len() == i,
            forall|j: int| 0 <= j < i ==> ids@[j] == j,
        decreases n - i,
    {
        ids.push(i);
        i = i + 1;
    }
    ids
}

/// Whether every worker's connection construction succeeded.
pub open spec fn startup_ok(results: Seq<Result<(), ConnectionError>>) -> bool {
    forall|i: int| 0 <= i < results.len() ==> results[i] is Ok
}

/// Decides pool startup from each worker's connection-construction outcome.
///
/// Startup is approved — returning the number of workers to run — exactly
/// when every construction succeeded. Any construction failure is fatal for
/// the whole pool: the first failure is surfaced, and no worker is started.
pub fn review_startup(conn_results: Vec<Result<(), ConnectionError>>) -> (r: Result<
    usize,
    ConnectionError,
>)
    ensures
        r is Ok <==> startup_ok(conn_results@),
        r is Ok ==> r->Ok_0 == conn_results@.len(),
        r matches Err(e) ==> exists|i: int|
            0 <= i < conn_results@.len() && #[trigger] conn_results@[i] is Err
                && e == conn_results@[i]->Err_0 && (forall|j: int|
                0 <= j < i ==> conn_results@[j] is Ok),
{
    let n = conn_results.len();
    let mut results = conn_results;
    let mut i: usize = 0;
    while i < n
        invariant
            i <= n,
            n == results@.len(),
            results@ == conn_results@,
            forall|j: int| 0 <= j < i ==> results@[j] is Ok,
        decreases n - i,
    {
        let failed = match &results[i] {
            Ok(_) => false,
            Err(_) => true,
        };
        if failed {
            let first = results.remove(i);
            match first {
                Err(e) => {
                    return Err(e);
                },
                Ok(_) => {
                    proof {
                        assert(false);
                    }
                },
            }
        }
        i = i + 1;
    }
    Ok(n)
}

/// Connection-construction failure blocks the pool: if any worker's
/// connection failed to construct, startup is refused, so not one worker is
/// started — none can ever reach its processing state, and the failure is
/// surfaced before any task is dequeued. The shell spawns workers only on an
/// approved startup.
pub proof fn lemma_connection_failure_blocks_pool(
    results: Seq<Result<(), ConnectionError>>,
    i: int,
)
    requires
        0 <= i < results.len(),
        results[i] is Err,
    ensures
        !startup_ok(results),
{
}

} // verus!
