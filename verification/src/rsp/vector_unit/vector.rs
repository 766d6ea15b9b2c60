//! Vector registers of the first vector unit, indexed by byte element.

use vstd::prelude::*;

verus! {

#[derive(Copy, Clone, Debug, PartialEq, Eq)]
pub struct Vector(pub [u16; 8]);

/// The element selection of a vector operand.
#[derive(Copy, Clone, Debug, PartialEq, Eq, Structural)]
pub enum Broadcast {
    Whole,
    Quarter(usize),
    Half(usize),
    Single(usize),
}

impl Broadcast {
    /// Decodes the four-bit element field of an instruction.
    pub open spec fn spec_from(value: usize) -> Broadcast {
        let e = value & 15;
        if e <= 1 {
            Broadcast::Whole
        } else if e <= 3 {
            Broadcast::Quarter(value & 1)
        } else if e <= 7 {
            Broadcast::Half(value & 3)
        } else {
            Broadcast::Single(value & 7)
        }
    }

    pub fn from(value: usize) -> (r: Self)
        ensures
            r == Self::spec_from(value),
    {
        let e = value & 15;
        if e <= 1 {
            Broadcast::Whole
        } else if e <= 3 {
            Broadcast::Quarter(value & 1)
        } else if e <= 7 {
            Broadcast::Half(value & 3)
        } else {
            Broadcast::Single(value & 7)
        }
    }

    /// The selections that `broadcast` accepts.
    pub open spec fn is_valid(self) -> bool {
        match self {
            Broadcast::Whole => true,
            Broadcast::Quarter(index) => index <= 1,
            Broadcast::Half(index) => index <= 3,
            Broadcast::Single(index) => index <= 7,
        }
    }
}

/// Every decoded element field is a valid selection.
pub proof fn lemma_decoded_broadcast_is_valid(value: usize)
    ensures
        Broadcast::spec_from(value).is_valid(),
{
    crate::bits::lemma_mask_bounds();
    assert(value & 1 <= 1 && value & 3 <= 3 && value & 7 <= 7);
}

/// The element that selection `broadcast` places at position `i`.
pub open spec fn broadcast_index(broadcast: Broadcast, i: int) -> int {
    match broadcast {
        Broadcast::Whole => i,
        Broadcast::Quarter(index) => index + (i / 2) * 2,
        Broadcast::Half(index) => index + (i / 4) * 4,
        Broadcast::Single(index) => index as int,
    }
}

impl Vector {
    /// The element at byte element `elem` (which is even).
    pub fn u16(&self, elem: usize) -> (r: u16)
        requires
            elem & 1 == 0,
            elem < 16,
        ensures
            r == self.0@[(elem / 2) as int],
    {
        proof {
            crate::bits::lemma_mask_bounds();
        }
        assert(elem >> 1 == elem / 2);
        self.0[elem >> 1]
    }

    /// The four elements from byte element `elem` (0 or 8), first one most
    /// significant.
    pub fn u64(&self, elem: usize) -> (r: u64)
        requires
            elem == 0 || elem == 8,
        ensures
            r == (self.0@[(elem / 2) as int] as u64) * 0x1_0000_0000_0000 + (self.0@[(elem / 2) as int
                + 1] as u64) * 0x1_0000_0000 + (self.0@[(elem / 2) as int + 2] as u64) * 0x1_0000 + (
            self.0@[(elem / 2) as int + 3] as u64),
    {
        let k = elem >> 1;
        proof {
            crate::bits::lemma_mask_bounds();
        }
        assert(elem >> 1 == elem / 2);
        let a = self.0[k] as u64;
        let b = self.0[k + 1] as u64;
        let c = self.0[k + 2] as u64;
        let d = self.0[k + 3] as u64;
        let mut value: u64 = 0;
        value = value | (a << 48);
        value = value | (b << 32);
        value = value | (c << 16);
        value = value | d;
        assert(value == a * 0x1_0000_0000_0000 + b * 0x1_0000_0000 + c * 0x1_0000 + d)
            by (bit_vector)
            requires
                a < 0x10000,
                b < 0x10000,
                c < 0x10000,
                d < 0x10000,
                value == ((((0u64 | (a << 48)) | (b << 32)) | (c << 16)) | d),
        ;
        value
    }

    pub fn set_u16(&mut self, elem: usize, value: u16)
        requires
            elem & 1 == 0,
            elem < 16,
        ensures
            final(self).0@ == old(self).0@.update((elem / 2) as int, value),
    {
        proof {
            crate::bits::lemma_mask_bounds();
        }
        assert(elem >> 1 == elem / 2);
        self.0[elem >> 1] = value;
    }

    /// Stores the four 16-bit parts of `value`, most significant first,
    /// from byte element `elem` (0 or 8).
    pub fn set_u64(&mut self, elem: usize, value: u64)
        requires
            elem == 0 || elem == 8,
        ensures
            final(self).0@ == old(self).0@.update((elem / 2) as int, (value >> 48) as u16).update(
                (elem / 2) as int + 1,
                (value >> 32) as u16,
            ).update((elem / 2) as int + 2, (value >> 16) as u16).update(
                (elem / 2) as int + 3,
                value as u16,
            ),
    {
        let k = elem >> 1;
        proof {
            crate::bits::lemma_mask_bounds();
        }
        assert(elem >> 1 == elem / 2);
        self.0[k] = (value >> 48) as u16;
        self.0[k + 1] = (value >> 32) as u16;
        self.0[k + 2] = (value >> 16) as u16;
        self.0[k + 3] = value as u16;
    }

    /// Stores the eight 16-bit parts of `value`, most significant first.
    pub fn set_u128(&mut self, elem: usize, value: u128)
        requires
            elem == 0,
        ensures
            forall|i: int|
                0 <= i < 8 ==> #[trigger] final(self).0@[i] == (value >> ((112 - 16 * i) as u128))
                    as u16,
    {
        self.0[0] = (value >> 112) as u16;
        self.0[1] = (value >> 96) as u16;
        self.0[2] = (value >> 80) as u16;
        self.0[3] = (value >> 64) as u16;
        self.0[4] = (value >> 48) as u16;
        self.0[5] = (value >> 32) as u16;
        self.0[6] = (value >> 16) as u16;
        self.0[7] = value as u16;
        assert forall|i: int| 0 <= i < 8 implies #[trigger] self.0@[i] == (value >> ((112 - 16
            * i) as u128)) as u16 by {
            if i == 0 {
            } else if i == 1 {
            } else if i == 2 {
            } else if i == 3 {
            } else if i == 4 {
            } else if i == 5 {
            } else if i == 6 {
            } else {
                crate::bits::lemma_flag_bits();
                assert(value >> 0u128 == value);
            }
        }
    }

    /// The vector with the selected elements repeated.
    pub fn broadcast(self, broadcast: Broadcast) -> (r: Self)
        requires
            broadcast.is_valid(),
        ensures
            forall|i: int|
                0 <= i < 8 ==> #[trigger] r.0@[i] == self.0@[broadcast_index(broadcast, i)],
    {
        let r = match broadcast {
            Broadcast::Whole => self,
            Broadcast::Quarter(index) => Vector(
                [
                    self.0[index],
                    self.0[index],
                    self.0[index + 2],
                    self.0[index + 2],
                    self.0[index + 4],
                    self.0[index + 4],
                    self.0[index + 6],
                    self.0[index + 6],
                ],
            ),
            Broadcast::Half(index) => Vector(
                [
                    self.0[index],
                    self.0[index],
                    self.0[index],
                    self.0[index],
                    self.0[index + 4],
                    self.0[index + 4],
                    self.0[index + 4],
                    self.0[index + 4],
                ],
            ),
            Broadcast::Single(index) => Vector([self.0[index];8]),
        };
        assert forall|i: int| 0 <= i < 8 implies #[trigger] r.0@[i] == self.0@[broadcast_index(
            broadcast,
            i,
        )] by {
            if i == 0 {
            } else if i == 1 {
            } else if i == 2 {
            } else if i == 3 {
            } else if i == 4 {
            } else if i == 5 {
            } else if i == 6 {
            } else {
            }
        }
        r
    }
}

} // verus!
