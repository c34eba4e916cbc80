//! 256-bit EVM words.
//!
//! A [`Word`] is the EVM's native value size: a 256-bit unsigned integer,
//! stored as four 64-bit little-endian limbs. The stack and memory hold
//! `Word` values; the gas meter inspects them (zero tests, byte length,
//! equality) when pricing operations.

use vstd::prelude::*;

verus! {

/// A 256-bit unsigned EVM word.
///
/// The value represented is `limb0 + 2^64*limb1 + 2^128*limb2 + 2^192*limb3`.
/// Byte `i` of the word (byte 0 being the least significant) is byte `i % 8`
/// of limb `i / 8`.
#[derive(Clone, Copy, Debug, PartialEq, Eq, Structural)]
pub struct Word {
    pub limb0: u64,
    pub limb1: u64,
    pub limb2: u64,
    pub limb3: u64,
}

/// The word whose value is zero.
pub open spec fn spec_zero_word() -> Word {
    Word { limb0: 0, limb1: 0, limb2: 0, limb3: 0 }
}

/// The least number of bytes needed to represent `x`: 0 for 0, 1 for
/// values below 2^8, 2 for values below 2^16, and so on up to 8.
pub open spec fn u64_byte_len(x: u64) -> u64 {
    if x == 0 {
        0
    } else if x < 0x100 {
        1
    } else if x < 0x1_0000 {
        2
    } else if x < 0x100_0000 {
        3
    } else if x < 0x1_0000_0000 {
        4
    } else if x < 0x100_0000_0000 {
        5
    } else if x < 0x1_0000_0000_0000 {
        6
    } else if x < 0x100_0000_0000_0000 {
        7
    } else {
        8
    }
}

impl Word {
    /// Limb `j` of the word, for `0 <= j < 4`.
    pub open spec fn spec_limb(self, j: int) -> u64 {
        if j == 0 {
            self.limb0
        } else if j == 1 {
            self.limb1
        } else if j == 2 {
            self.limb2
        } else {
            self.limb3
        }
    }

    /// Byte `i` of the word, for `0 <= i < 32`; byte 0 is least significant.
    pub open spec fn spec_byte(self, i: int) -> u8 {
        ((self.spec_limb(i / 8) >> (((i % 8) * 8) as u64)) & 0xff) as u8
    }

    /// Whether the word's value is zero.
    pub open spec fn spec_is_zero(self) -> bool {
        self.limb0 == 0 && self.limb1 == 0 && self.limb2 == 0 && self.limb3 == 0
    }

    /// The least number of bytes needed to represent the word's value:
    /// 0 for the zero word, otherwise one more than the index of the
    /// highest nonzero byte.
    pub open spec fn spec_byte_len(self) -> u64 {
        if self.limb3 != 0 {
            (24 + u64_byte_len(self.limb3)) as u64
        } else if self.limb2 != 0 {
            (16 + u64_byte_len(self.limb2)) as u64
        } else if self.limb1 != 0 {
            (8 + u64_byte_len(self.limb1)) as u64
        } else {
            u64_byte_len(self.limb0)
        }
    }

    /// The word with value zero.
    pub fn zero() -> (r: Word)
        ensures
            r == spec_zero_word(),
    {
        Word { limb0: 0, limb1: 0, limb2: 0, limb3: 0 }
    }

    /// The word with the value of `v`.
    pub fn from_u64(v: u64) -> (r: Word)
        ensures
            r == (Word { limb0: v, limb1: 0, limb2: 0, limb3: 0 }),
            r.spec_is_zero() <==> v == 0,
    {
        Word { limb0: v, limb1: 0, limb2: 0, limb3: 0 }
    }

    /// Byte `index` of the word; byte 0 is least significant.
    pub fn byte(&self, index: usize) -> (r: u8)
        requires
            index < 32,
        ensures
            r == self.spec_byte(index as int),
    {
        let limb: u64 = if index < 8 {
            self.limb0
        } else if index < 16 {
            self.limb1
        } else if index < 24 {
            self.limb2
        } else {
            self.limb3
        };
        let sh: u64 = ((index % 8) * 8) as u64;
        ((limb >> sh) & 0xff) as u8
    }

    /// A copy of the word with byte `index` replaced by `value` and every
    /// other byte unchanged.
    pub fn with_byte(&self, index: usize, value: u8) -> (r: Word)
        requires
            index < 32,
        ensures
            forall|k: int|
                0 <= k < 32 ==> r.spec_byte(k) == (if k == index {
                    value
                } else {
                    self.spec_byte(k)
                }),
    {
        let sh: u64 = ((index % 8) * 8) as u64;
        let mask: u64 = !(0xffu64 << sh);
        let r = if index < 8 {
            Word { limb0: (self.limb0 & mask) | ((value as u64) << sh), ..*self }
        } else if index < 16 {
            Word { limb1: (self.limb1 & mask) | ((value as u64) << sh), ..*self }
        } else if index < 24 {
            Word { limb2: (self.limb2 & mask) | ((value as u64) << sh), ..*self }
        } else {
            Word { limb3: (self.limb3 & mask) | ((value as u64) << sh), ..*self }
        };
        proof {
            let i = index as int;
            assert forall|k: int| 0 <= k < 32 implies r.spec_byte(k) == (if k == i {
                value
            } else {
                self.spec_byte(k)
            }) by {
                assert(k == 8 * (k / 8) + k % 8);
                assert(i == 8 * (i / 8) + i % 8);
                if k / 8 == i / 8 {
                    lemma_limb_set_byte(
                        self.spec_limb(k / 8),
                        value,
                        (i % 8) as u64,
                        (k % 8) as u64,
                    );
                }
            }
        }
        r
    }

    /// Whether the word's value is zero.
    pub fn is_zero(&self) -> (r: bool)
        ensures
            r == self.spec_is_zero(),
    {
        self.limb0 == 0 && self.limb1 == 0 && self.limb2 == 0 && self.limb3 == 0
    }

    /// The least number of bytes needed to represent the word's value.
    pub fn byte_len(&self) -> (r: u64)
        ensures
            r == self.spec_byte_len(),
            r <= 32,
            r == 0 <==> self.spec_is_zero(),
    {
        if self.limb3 != 0 {
            24 + u64_len(self.limb3)
        } else if self.limb2 != 0 {
            16 + u64_len(self.limb2)
        } else if self.limb1 != 0 {
            8 + u64_len(self.limb1)
        } else {
            u64_len(self.limb0)
        }
    }
}

/// Every byte of the zero word is zero.
pub proof fn lemma_zero_word_bytes()
    ensures
        forall|k: int| 0 <= k < 32 ==> #[trigger] spec_zero_word().spec_byte(k) == 0,
{
    assert forall|k: int| 0 <= k < 32 implies #[trigger] spec_zero_word().spec_byte(k) == 0 by {
        let sh = ((k % 8) * 8) as u64;
        assert((0u64 >> sh) & 0xff == 0) by (bit_vector);
    }
}

/// Replacing one byte of a limb leaves the limb's other bytes unchanged;
/// byte `b` of limb `l` is `(l >> (8*b)) & 0xff`.
proof fn lemma_limb_set_byte(l: u64, v: u8, bi: u64, bk: u64)
    by (bit_vector)
    requires
        bi < 8,
        bk < 8,
    ensures
        bi == bk ==> (((l & !(0xffu64 << (8 * bi))) | ((v as u64) << (8 * bi))) >> (8 * bk)) & 0xff
            == v as u64,
        bi != bk ==> (((l & !(0xffu64 << (8 * bi))) | ((v as u64) << (8 * bi))) >> (8 * bk)) & 0xff
            == (l >> (8 * bk)) & 0xff,
{
}

/// Executable counterpart of [`u64_byte_len`].
fn u64_len(x: u64) -> (r: u64)
    ensures
        r == u64_byte_len(x),
{
    if x == 0 {
        0
    } else if x < 0x100 {
        1
    } else if x < 0x1_0000 {
        2
    } else if x < 0x100_0000 {
        3
    } else if x < 0x1_0000_0000 {
        4
    } else if x < 0x100_0000_0000 {
        5
    } else if x < 0x1_0000_0000_0000 {
        6
    } else if x < 0x100_0000_0000_0000 {
        7
    } else {
        8
    }
}

} // verus!
