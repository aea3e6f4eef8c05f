//! Segment selectors, privilege rings and the descriptor-table pointer.

use vstd::prelude::*;

verus! {

use crate::bits::BitAccess;

/// A protection ring, 0 (most privileged) to 3 (least privileged).
#[derive(Debug, Copy, Clone, PartialEq, Eq, Structural, Hash)]
pub enum PrivilegeLevel {
    Ring0,
    Ring1,
    Ring2,
    Ring3,
}

impl PrivilegeLevel {
    /// The numeric value of the ring.
    pub open spec fn as_u16(self) -> u16 {
        match self {
            PrivilegeLevel::Ring0 => 0,
            PrivilegeLevel::Ring1 => 1,
            PrivilegeLevel::Ring2 => 2,
            PrivilegeLevel::Ring3 => 3,
        }
    }

    /// The numeric value of the ring.
    pub fn to_u16(self) -> (r: u16)
        ensures
            r == self.as_u16(),
    {
        match self {
            PrivilegeLevel::Ring0 => 0,
            PrivilegeLevel::Ring1 => 1,
            PrivilegeLevel::Ring2 => 2,
            PrivilegeLevel::Ring3 => 3,
        }
    }

    /// The ring with the given numeric value; only 0 to 3 name a ring.
    pub fn from_u16(value: u16) -> (r: PrivilegeLevel)
        requires
            value < 4,
        ensures
            r.as_u16() == value,
    {
        match value {
            0 => PrivilegeLevel::Ring0,
            1 => PrivilegeLevel::Ring1,
            2 => PrivilegeLevel::Ring2,
            _ => PrivilegeLevel::Ring3,
        }
    }
}

/// Selects an entry of a descriptor table: a table index in the high
/// 13 bits and a requested privilege level in the low 2 bits.
#[derive(Debug, Clone, Copy, PartialEq, Eq, Structural, Hash)]
pub struct SegmentSelector(pub u16);

impl SegmentSelector {
    /// Builds a selector from a table index and a requested privilege level.
    pub fn new(index: u16, rpl: PrivilegeLevel) -> (r: SegmentSelector)
        requires
            index < 0x2000,
        ensures
            r.0 == (index << 3) | rpl.as_u16(),
            r.0 >> 3 == index,
            r.0 & 3 == rpl.as_u16(),
    {
        let word: u16 = index << 3 | rpl.to_u16();
        proof {
            let v = rpl.as_u16();
            assert(index < 0x2000 && v < 4 ==> ((index << 3) | v) >> 3 == index && ((index << 3)
                | v) & 3 == v) by (bit_vector);
        }
        SegmentSelector(word)
    }

    /// The table index held in the high 13 bits.
    pub fn index(self) -> (r: u16)
        ensures
            r == self.0 >> 3,
    {
        self.0 >> 3
    }

    /// The requested privilege level held in the low 2 bits.
    pub fn rpl(self) -> (r: PrivilegeLevel)
        ensures
            r.as_u16() as u64 == self.0 as u64 & 3,
    {
        let low = self.0.get_bits(0, 2);
        proof {
            let w = self.0;
            assert((w as u64 >> 0u64) & ((1u64 << 2u64) - 1) as u64 == w as u64 & 3)
                by (bit_vector);
            assert(w as u64 & 3 < 4) by (bit_vector);
        }
        PrivilegeLevel::from_u16(low)
    }

    /// Replaces the requested privilege level, leaving the index alone.
    pub fn set_rpl(&mut self, rpl: PrivilegeLevel)
        ensures
            final(self).0 as u64 == (old(self).0 as u64 & !3u64) | rpl.as_u16() as u64,
            final(self).0 >> 3 == old(self).0 >> 3,
    {
        let value = rpl.to_u16();
        proof {
            let v = rpl.as_u16();
            assert(v < 4 ==> v as u64 <= ((1u64 << 2u64) - 1) as u64) by (bit_vector);
        }
        self.0.set_bits(0, 2, value);
        proof {
            let pre = old(self).0 as u64;
            let v = rpl.as_u16() as u64;
            assert((pre & !((((1u64 << 2u64) - 1) as u64) << 0u64)) | (v << 0u64) == (pre & !3u64)
                | v) by (bit_vector);
            let post = final(self).0 as u64;
            assert(post == (pre & !3u64) | v && v < 4 ==> (post as u16) >> 3 == (pre as u16) >> 3)
                by (bit_vector);
        }
    }
}

/// The operand of the privileged table-load instruction: the table's size
/// in bytes minus one, and its base address.
#[derive(Debug, Clone, Copy, PartialEq, Eq, Structural)]
pub struct DescriptorTablePointer {
    /// Size of the table in bytes, minus one.
    pub limit: u16,
    /// Address of the first byte of the table.
    pub base: u32,
}

} // verus!
