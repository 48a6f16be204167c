//! The task generator.
//!
//! On every tick of a fixed-period timer, the generator draws four
//! independent 64-bit values and a random fixed-width address, concatenates
//! the values (least significant limb first) into one 256-bit slot key, and
//! enqueues the resulting task. The timer itself belongs to the asynchronous
//! shell; this module holds what one tick does to the queue. An enqueue
//! failure means no consumer remains, which the producer must treat as
//! fatal: the contract says exactly when it happens, and the shell aborts on
//! it, loudly.

use vstd::prelude::*;

use crate::queue::{EnqueueError, TaskQueue};
use crate::task::{Address, Slot, Task, ADDRESS_BYTES};

verus! {

/// Relies on `rand::random::<u64>`: one value drawn uniformly from the
/// thread-local generator. Nothing can be promised of a random value.
#[verifier::external_body]
fn random_limb() -> u64 {
    rand::random::<u64>()
}

/// Relies on `alloy::primitives::Address::random`: a fixed-width (20-byte)
/// address drawn from the thread-local generator. Only the width is
/// promised; nothing can be said of random contents.
#[verifier::external_body]
fn random_address_bytes() -> (r: Vec<u8>)
    ensures
        r@.len() == ADDRESS_BYTES,
{
    alloy::primitives::Address::random().to_vec()
}

/// Draws one randomized task: four independent 64-bit limbs concatenated
/// into a 256-bit slot key, and a random fixed-width address.
pub fn generate_task() -> (t: Task)
    ensures
        t.wf(),
{
    let l0 = random_limb();
    let l1 = random_limb();
    let l2 = random_limb();
    let l3 = random_limb();
    let slot = Slot::from_limbs(l0, l1, l2, l3);
    let address = Address::new(random_address_bytes());
    Task::new(address, slot)
}

/// One generator tick: draw a randomized task and enqueue it.
///
/// While the queue is open this always succeeds and grows the queue by
/// exactly that one well-formed task, touching nothing else. Once the queue
/// has closed — no consumer remains — the tick fails, leaves the queue
/// unchanged, and the caller must treat the failure as fatal rather than
/// silently dropping work.
pub fn generator_tick(q: &mut TaskQueue) -> (r: Result<(), EnqueueError>)
    requires
        old(q).wf(),
    ensures
        final(q).wf(),
        final(q).is_closed() == old(q).is_closed(),
        final(q).delivered() == old(q).delivered(),
        old(q).is_closed() ==> r is Err
            && r->Err_0 == EnqueueError::QueueClosedWithNoConsumers
            && *final(q) == *old(q),
        !old(q).is_closed() ==> r is Ok
            && final(q).enqueued().len() == old(q).enqueued().len() + 1
            && final(q).enqueued().take(old(q).enqueued().len() as int) == old(q).enqueued()
            && final(q).enqueued().last().wf()
            && final(q).pending() == old(q).pending().push(final(q).enqueued().last()),
{
    let task = generate_task();
    let r = q.enqueue(task);
    proof {
        if !old(q).is_closed() {
            assert(q.enqueued().take(old(q).enqueued().len() as int) =~= old(q).enqueued());
        }
    }
    r
}

} // verus!
