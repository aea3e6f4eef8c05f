//! Bit-level access to the unsigned words that descriptors are packed into.

use vstd::prelude::*;

verus! {

/// Mask with the low `n` bits set, for `n < 64`.
pub open spec fn low_mask64(n: u64) -> u64
    recommends
        n < 64,
{
    ((1u64 << n) - 1) as u64
}

/// Uniform bit access for the unsigned integer types the kernel packs
/// descriptor words into.  Positions are counted from the least
/// significant bit; ranges are half-open.
pub trait BitAccess: Sized {
    /// Number of bits in the implementing type.
    spec fn bit_length() -> u32;

    /// The value widened to 64 bits, so that contracts can speak of bit
    /// positions uniformly across the implementing types.
    spec fn as_u64(self) -> u64;

    /// True when bit `bit` is set.
    fn get_bit(&self, bit: u32) -> (r: bool)
        requires
            bit < Self::bit_length(),
        ensures
            r == ((self.as_u64() >> bit as u64) & 1 == 1),
    ;

    /// The bits in positions `start..end`, moved down to position 0.
    fn get_bits(&self, start: u32, end: u32) -> (r: Self)
        requires
            start < end,
            end <= Self::bit_length(),
        ensures
            r.as_u64() == (self.as_u64() >> start as u64) & low_mask64((end - start) as u64),
    ;

    /// Sets or clears bit `bit`, leaving every other bit unchanged.
    fn set_bit(&mut self, bit: u32, value: bool)
        requires
            bit < Self::bit_length(),
        ensures
            value ==> final(self).as_u64() == old(self).as_u64() | (1u64 << bit as u64),
            !value ==> final(self).as_u64() == old(self).as_u64() & !(1u64 << bit as u64),
    ;

    /// Replaces the bits in positions `start..end` by `value`, leaving
    /// every other bit unchanged.  `value` must fit in the range.
    fn set_bits(&mut self, start: u32, end: u32, value: Self)
        requires
            start < end,
            end <= Self::bit_length(),
            value.as_u64() <= low_mask64((end - start) as u64),
        ensures
            final(self).as_u64() == (old(self).as_u64()
                & !(low_mask64((end - start) as u64) << start as u64))
                | (value.as_u64() << start as u64),
    ;
}

impl BitAccess for u8 {
    open spec fn bit_length() -> u32 {
        8
    }

    open spec fn as_u64(self) -> u64 {
        self as u64
    }

    fn get_bit(&self, bit: u32) -> (r: bool) {
        let r = *self & (1u8 << bit) != 0;
        proof {
            assert(bit < 8 ==> ((*self & (1u8 << bit) != 0) == ((*self as u64 >> bit as u64) & 1
                == 1))) by (bit_vector);
        }
        r
    }

    fn get_bits(&self, start: u32, end: u32) -> (r: Self) {
        let top: u32 = 8 - end;
        let r = (*self << top) >> top >> start;
        proof {
            assert((((*self << top) >> top) >> start) as u64 == (*self as u64 >> start as u64) & (
            (1u64 << ((end - start) as u64)) - 1) as u64) by (bit_vector)
                requires
                    start < end,
                    end <= 8,
                    top + end == 8,
            ;
        }
        r
    }

    fn set_bit(&mut self, bit: u32, value: bool) {
        if value {
            *self = *self | (1u8 << bit);
        } else {
            *self = *self & !(1u8 << bit);
        }
        proof {
            let pre = *old(self);
            assert(bit < 8 ==> (pre | (1u8 << bit)) as u64 == pre as u64 | (1u64 << bit as u64))
                by (bit_vector);
            assert(bit < 8 ==> (pre & !(1u8 << bit)) as u64 == pre as u64 & !(1u64
                << bit as u64)) by (bit_vector);
        }
    }

    fn set_bits(&mut self, start: u32, end: u32, value: Self) {
        let top: u32 = 8 - end;
        let mask: u8 = !(!0u8 << top >> top >> start << start);
        *self = (*self & mask) | (value << start);
        proof {
            let pre = *old(self);
            assert(((pre & !(!0u8 << top >> top >> start << start)) | (value << start)) as u64 == (
            pre as u64 & !((((1u64 << ((end - start) as u64)) - 1) as u64) << start as u64)) | ((
            value as u64) << start as u64)) by (bit_vector)
                requires
                    start < end,
                    end <= 8,
                    top + end == 8,
                    value as u64 <= ((1u64 << ((end - start) as u64)) - 1) as u64,
            ;
        }
    }
}

impl BitAccess for u16 {
    open spec fn bit_length() -> u32 {
        16
    }

    open spec fn as_u64(self) -> u64 {
        self as u64
    }

    fn get_bit(&self, bit: u32) -> (r: bool) {
        let r = *self & (1u16 << bit) != 0;
        proof {
            assert(bit < 16 ==> ((*self & (1u16 << bit) != 0) == ((*self as u64 >> bit as u64) & 1
                == 1))) by (bit_vector);
        }
        r
    }

    fn get_bits(&self, start: u32, end: u32) -> (r: Self) {
        let top: u32 = 16 - end;
        let r = (*self << top) >> top >> start;
        proof {
            assert((((*self << top) >> top) >> start) as u64 == (*self as u64 >> start as u64) & (
            (1u64 << ((end - start) as u64)) - 1) as u64) by (bit_vector)
                requires
                    start < end,
                    end <= 16,
                    top + end == 16,
            ;
        }
        r
    }

    fn set_bit(&mut self, bit: u32, value: bool) {
        if value {
            *self = *self | (1u16 << bit);
        } else {
            *self = *self & !(1u16 << bit);
        }
        proof {
            let pre = *old(self);
            assert(bit < 16 ==> (pre | (1u16 << bit)) as u64 == pre as u64 | (1u64 << bit as u64))
                by (bit_vector);
            assert(bit < 16 ==> (pre & !(1u16 << bit)) as u64 == pre as u64 & !(1u64
                << bit as u64)) by (bit_vector);
        }
    }

    fn set_bits(&mut self, start: u32, end: u32, value: Self) {
        let top: u32 = 16 - end;
        let mask: u16 = !(!0u16 << top >> top >> start << start);
        *self = (*self & mask) | (value << start);
        proof {
            let pre = *old(self);
            assert(((pre & !(!0u16 << top >> top >> start << start)) | (value << start)) as u64
                == (pre as u64 & !((((1u64 << ((end - start) as u64)) - 1) as u64)
                << start as u64)) | ((value as u64) << start as u64)) by (bit_vector)
                requires
                    start < end,
                    end <= 16,
                    top + end == 16,
                    value as u64 <= ((1u64 << ((end - start) as u64)) - 1) as u64,
            ;
        }
    }
}

impl BitAccess for u32 {
    open spec fn bit_length() -> u32 {
        32
    }

    open spec fn as_u64(self) -> u64 {
        self as u64
    }

    fn get_bit(&self, bit: u32) -> (r: bool) {
        let r = *self & (1u32 << bit) != 0;
        proof {
            assert(bit < 32 ==> ((*self & (1u32 << bit) != 0) == ((*self as u64 >> bit as u64) & 1
                == 1))) by (bit_vector);
        }
        r
    }

    fn get_bits(&self, start: u32, end: u32) -> (r: Self) {
        let top: u32 = 32 - end;
        let r = (*self << top) >> top >> start;
        proof {
            assert((((*self << top) >> top) >> start) as u64 == (*self as u64 >> start as u64) & (
            (1u64 << ((end - start) as u64)) - 1) as u64) by (bit_vector)
                requires
                    start < end,
                    end <= 32,
                    top + end == 32,
            ;
        }
        r
    }

    fn set_bit(&mut self, bit: u32, value: bool) {
        if value {
            *self = *self | (1u32 << bit);
        } else {
            *self = *self & !(1u32 << bit);
        }
        proof {
            let pre = *old(self);
            assert(bit < 32 ==> (pre | (1u32 << bit)) as u64 == pre as u64 | (1u64 << bit as u64))
                by (bit_vector);
            assert(bit < 32 ==> (pre & !(1u32 << bit)) as u64 == pre as u64 & !(1u64
                << bit as u64)) by (bit_vector);
        }
    }

    fn set_bits(&mut self, start: u32, end: u32, value: Self) {
        let top: u32 = 32 - end;
        let mask: u32 = !(!0u32 << top >> top >> start << start);
        *self = (*self & mask) | (value << start);
        proof {
            let pre = *old(self);
            assert(((pre & !(!0u32 << top >> top >> start << start)) | (value << start)) as u64
                == (pre as u64 & !((((1u64 << ((end - start) as u64)) - 1) as u64)
                << start as u64)) | ((value as u64) << start as u64)) by (bit_vector)
                requires
                    start < end,
                    end <= 32,
                    top + end == 32,
                    value as u64 <= ((1u64 << ((end - start) as u64)) - 1) as u64,
            ;
        }
    }
}

} // verus!
