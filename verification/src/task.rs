//! The unit of work: a point-read query, identified by an address and a
//! 256-bit storage slot.

use vstd::prelude::*;

verus! {

/// Width of an [`Address`] in bytes.
pub const ADDRESS_BYTES: usize = 20;

/// A fixed-width identifier of the account or entity being queried.
#[derive(Debug)]
pub struct Address {
    pub bytes: Vec<u8>,
}

impl Address {
    /// A well-formed address holds exactly [`ADDRESS_BYTES`] bytes.
    pub open spec fn wf(self) -> bool {
        self.bytes@.len() == ADDRESS_BYTES
    }

    /// Builds an address from exactly [`ADDRESS_BYTES`] bytes.
    pub fn new(bytes: Vec<u8>) -> (a: Address)
        requires
            bytes@.len() == ADDRESS_BYTES,
        ensures
            a.wf(),
            a.bytes@ == bytes@,
    {
        Address { bytes }
    }
}

/// A 256-bit storage key, held as four 64-bit limbs, least significant limb
/// first.
#[derive(Clone, Copy, PartialEq, Eq, Structural, Debug)]
pub struct Slot {
    pub limb0: u64,
    pub limb1: u64,
    pub limb2: u64,
    pub limb3: u64,
}

impl Slot {
    /// The 256-bit unsigned value that the four limbs denote.
    pub open spec fn value(self) -> int {
        self.limb0
            + self.limb1 * 0x1_0000_0000_0000_0000
            + self.limb2 * 0x1_0000_0000_0000_0000_0000_0000_0000_0000
            + self.limb3 * 0x1_0000_0000_0000_0000_0000_0000_0000_0000_0000_0000_0000_0000
    }

    /// Concatenates four 64-bit values, least significant first, into one
    /// 256-bit slot key.
    pub fn from_limbs(l0: u64, l1: u64, l2: u64, l3: u64) -> (s: Slot)
        ensures
            s.limb0 == l0,
            s.limb1 == l1,
            s.limb2 == l2,
            s.limb3 == l3,
            s.value() == l0
                + l1 * 0x1_0000_0000_0000_0000
                + l2 * 0x1_0000_0000_0000_0000_0000_0000_0000_0000
                + l3 * 0x1_0000_0000_0000_0000_0000_0000_0000_0000_0000_0000_0000_0000,
    {
        Slot { limb0: l0, limb1: l1, limb2: l2, limb3: l3 }
    }
}

/// One unit of query work: an `(Address, Slot)` pair, created once by the
/// generator and consumed exactly once by exactly one worker.
#[derive(Debug)]
pub struct Task {
    pub address: Address,
    pub slot: Slot,
}

impl Task {
    /// A well-formed task carries a well-formed address.
    pub open spec fn wf(self) -> bool {
        self.address.wf()
    }

    /// Pairs an address with a slot key.
    pub fn new(address: Address, slot: Slot) -> (t: Task)
        requires
            address.wf(),
        ensures
            t.wf(),
            t.address == address,
            t.slot == slot,
    {
        Task { address, slot }
    }
}

} // verus!
