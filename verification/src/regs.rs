//! Bitfields of 32-bit registers: where a field lies in a register word, and
//! what reading, writing and matching it mean, bit for bit.

use vstd::prelude::*;

verus! {

/// The `numbits` lowest bits set, the rest clear.
pub open spec fn low_bits(numbits: u32) -> u32 {
    if numbits >= 32 {
        0xFFFF_FFFFu32
    } else {
        ((1u32 << numbits) - 1) as u32
    }
}

/// A run of `numbits` adjacent bits of a register word, the lowest of them
/// at bit `shift`.
#[derive(Clone, Copy, Debug, PartialEq, Eq, Structural)]
pub struct Field {
    pub shift: u32,
    pub numbits: u32,
}

/// A value already moved to its field's place, with the mask of the bits
/// that the field owns.
#[derive(Clone, Copy, Debug, PartialEq, Eq, Structural)]
pub struct FieldValue {
    pub mask: u32,
    pub value: u32,
}

impl Field {
    /// The field has at least one bit and ends inside the word.
    pub open spec fn wf(self) -> bool {
        1 <= self.numbits && self.shift + self.numbits <= 32
    }

    /// The bits of the word that belong to the field.
    pub open spec fn mask(self) -> u32 {
        low_bits(self.numbits) << self.shift
    }

    /// What the field holds in the register word `raw`.
    pub open spec fn read_spec(self, raw: u32) -> u32 {
        (raw & self.mask()) >> self.shift
    }

    /// `value` moved to the field's place; bits of `value` beyond the
    /// field's width are cut off.
    pub open spec fn val_spec(self, value: u32) -> FieldValue {
        FieldValue { mask: self.mask(), value: (value << self.shift) & self.mask() }
    }

    /// Computes the mask of the field.
    pub fn in_place_mask(self) -> (m: u32)
        requires
            self.wf(),
        ensures
            m == self.mask(),
    {
        low_bits_of(self.numbits) << self.shift
    }

    /// Extracts the field from the register word `raw`. The result never
    /// exceeds what the field's width can hold.
    pub fn read(self, raw: u32) -> (value: u32)
        requires
            self.wf(),
        ensures
            value == self.read_spec(raw),
            value <= low_bits(self.numbits),
    {
        let m: u32 = self.in_place_mask();
        let shift: u32 = self.shift;
        proof {
            let low: u32 = low_bits(self.numbits);
            assert(((raw & (low << shift)) >> shift) <= low) by (bit_vector)
                requires
                    shift < 32,
            ;
        }
        (raw & m) >> shift
    }

    /// Places `value` in the field. No bit outside the field is set, and
    /// reading the field back gives `value` cut to the field's width.
    pub fn val(self, value: u32) -> (fv: FieldValue)
        requires
            self.wf(),
        ensures
            fv == self.val_spec(value),
            fv.value & !self.mask() == 0,
            self.read_spec(fv.value) == value & low_bits(self.numbits),
    {
        let m: u32 = self.in_place_mask();
        let shift: u32 = self.shift;
        proof {
            let numbits: u32 = self.numbits;
            let low: u32 = low_bits(numbits);
            assert((((value << shift) & (low << shift)) & !(low << shift)) == 0) by (bit_vector);
            assert(((((value << shift) & (low << shift)) & (low << shift)) >> shift) == value
                & low) by (bit_vector)
                requires
                    shift + numbits <= 32,
                    numbits >= 1,
                    low == if numbits >= 32 {
                        0xFFFF_FFFFu32
                    } else {
                        ((1u32 << numbits) - 1) as u32
                    },
            ;
        }
        FieldValue { mask: m, value: (value << shift) & m }
    }
}

/// Computes `low_bits`.
fn low_bits_of(numbits: u32) -> (m: u32)
    requires
        1 <= numbits <= 32,
    ensures
        m == low_bits(numbits),
{
    if numbits >= 32 {
        0xFFFF_FFFF
    } else {
        assert((1u32 << numbits) >= 1) by (bit_vector)
            requires
                numbits < 32,
        ;
        (1u32 << numbits) - 1
    }
}

impl FieldValue {
    /// Whether the bits under the mask in `raw` equal this value.
    pub open spec fn matches_spec(self, raw: u32) -> bool {
        raw & self.mask == self.value
    }

    /// Tests the register word `raw` against this value, looking only at
    /// the bits under the mask.
    pub fn matches(self, raw: u32) -> (hit: bool)
        ensures
            hit == self.matches_spec(raw),
    {
        raw & self.mask == self.value
    }
}

} // verus!
