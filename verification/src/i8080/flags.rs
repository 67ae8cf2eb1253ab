//! The condition flags and how a result byte determines them.
use vstd::prelude::*;

verus! {

/// The number of bits set in `value`.
pub open spec fn ones(value: u8) -> nat {
    (value % 2 + (value / 2) % 2 + (value / 4) % 2 + (value / 8) % 2 + (value / 16) % 2 + (value
        / 32) % 2 + (value / 64) % 2 + (value / 128) % 2) as nat
}

/// Whether an even number of bits is set in `value`.
pub open spec fn even_parity(value: u8) -> bool {
    ones(value) % 2 == 0
}

/// Whether bit 7 of `value` is set.
pub open spec fn sign_bit(value: u8) -> bool {
    value >= 128
}

/// The four condition flags: sign, zero, parity and carry.
#[derive(Clone, Copy, Debug, PartialEq, Eq, Structural)]
pub struct ConditionalFlags {
    /// Bit 7 of the last result.
    pub s: bool,
    /// The last result was zero.
    pub z: bool,
    /// The last result had an even number of bits set.
    pub p: bool,
    /// The last arithmetic operation overflowed or borrowed.
    pub cy: bool,
}

impl ConditionalFlags {
    /// The flags that `result` determines, with the carry flag kept from
    /// `self`.
    pub open spec fn with_result(self, result: u8) -> ConditionalFlags {
        ConditionalFlags {
            s: sign_bit(result),
            z: result == 0,
            p: even_parity(result),
            cy: self.cy,
        }
    }

    /// `self` with the carry flag replaced.
    pub open spec fn with_carry(self, carry: bool) -> ConditionalFlags {
        ConditionalFlags { cy: carry, ..self }
    }

    /// All four flags clear.
    pub fn new() -> (flags: ConditionalFlags)
        ensures
            flags == (ConditionalFlags { s: false, z: false, p: false, cy: false }),
    {
        ConditionalFlags { s: false, z: false, p: false, cy: false }
    }

    /// Recomputes sign, zero and parity from `result`; the carry flag is
    /// left as it was.
    pub fn set_non_carry_flags(&mut self, result: u8)
        ensures
            *final(self) == old(self).with_result(result),
    {
        let folded: u8 = result ^ (result >> 4);
        let folded: u8 = folded ^ (folded >> 2);
        let folded: u8 = folded ^ (folded >> 1);
        assert(((result ^ (result >> 4)) ^ ((result ^ (result >> 4)) >> 2) ^ (((result ^ (result
            >> 4)) ^ ((result ^ (result >> 4)) >> 2)) >> 1)) & 1 == 0 <==> (result % 2 + (result
            / 2) % 2 + (result / 4) % 2 + (result / 8) % 2 + (result / 16) % 2 + (result / 32) % 2
            + (result / 64) % 2 + (result / 128) % 2) % 2 == 0) by (bit_vector);
        assert(result & 0x80 != 0 <==> result >= 128) by (bit_vector);
        self.s = result & 0x80 != 0;
        self.z = result == 0;
        self.p = folded & 1 == 0;
    }
}

} // verus!
