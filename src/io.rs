use vstd::prelude::*;

verus! {

/// One bus transaction on a memory-mapped register.
#[derive(Clone, Copy, Debug, PartialEq, Eq, Structural)]
pub enum RegisterWrite {
    /// Overwrite the register with `value`, without reading it first.
    Overwrite { addr: u32, value: u32 },
    /// Read the register and write it back with the bits of `mask` set.
    SetBits { addr: u32, mask: u32 },
}

impl RegisterWrite {
    /// The register this transaction touches.
    pub open spec fn spec_addr(self) -> u32 {
        match self {
            RegisterWrite::Overwrite { addr, .. } => addr,
            RegisterWrite::SetBits { addr, .. } => addr,
        }
    }

    /// The value the register holds after the transaction, given the value
    /// it held before.
    pub open spec fn spec_result(self, current: u32) -> u32 {
        match self {
            RegisterWrite::Overwrite { value, .. } => value,
            RegisterWrite::SetBits { mask, .. } => current | mask,
        }
    }

    pub fn addr(&self) -> (r: u32)
        ensures
            r == self.spec_addr(),
    {
        match self {
            RegisterWrite::Overwrite { addr, .. } => *addr,
            RegisterWrite::SetBits { addr, .. } => *addr,
        }
    }

    /// Whether performing this transaction needs the register's current value.
    pub fn reads_first(&self) -> (r: bool)
        ensures
            r == (self is SetBits),
    {
        match self {
            RegisterWrite::Overwrite { .. } => false,
            RegisterWrite::SetBits { .. } => true,
        }
    }

    /// The word to store, given the register's current value (ignored by a
    /// hard write).
    pub fn result(&self, current: u32) -> (r: u32)
        ensures
            r == self.spec_result(current),
    {
        match self {
            RegisterWrite::Overwrite { value, .. } => *value,
            RegisterWrite::SetBits { mask, .. } => set_bits(current, *mask),
        }
    }
}

/// Read-modify-write "set bits": the current value with the bits of `mask`
/// set and every other bit kept.
pub fn set_bits(current: u32, mask: u32) -> (r: u32)
    ensures
        r == current | mask,
        r & mask == mask,
        forall|b: u32| #![auto] b < 32 && (mask >> b) & 1 == 0 ==> (r >> b) & 1 == (current >> b) & 1,
{
    let r = current | mask;
    assert(r & mask == mask) by (bit_vector)
        requires r == current | mask;
    assert forall|b: u32| #![auto] b < 32 && (mask >> b) & 1 == 0 implies (r >> b) & 1 == (current >> b) & 1 by {
        assert(b < 32 && (mask >> b) & 1 == 0 ==> (r >> b) & 1 == (current >> b) & 1) by (bit_vector)
            requires r == current | mask;
    }
    r
}

} // verus!
