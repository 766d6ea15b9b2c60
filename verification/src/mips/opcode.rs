//! The three instruction formats.

use vstd::prelude::*;

verus! {

/// The `rs` field, bits 21-25.
pub open spec fn field_rs(word: u32) -> int {
    ((word >> 21u32) & 31) as int
}

/// The `rt` field, bits 16-20.
pub open spec fn field_rt(word: u32) -> int {
    ((word >> 16u32) & 31) as int
}

/// The `rd` field, bits 11-15.
pub open spec fn field_rd(word: u32) -> int {
    ((word >> 11u32) & 31) as int
}

/// The shift amount, bits 6-10.
pub open spec fn field_sa(word: u32) -> u32 {
    (word >> 6u32) & 31
}

/// The 16-bit immediate, sign-extended.
pub open spec fn field_simm(word: u32) -> i16 {
    (word & 0xffff) as u16 as i16
}

/// A register-format instruction.
#[derive(Copy, Clone, Debug, PartialEq, Eq, Structural)]
pub struct RType {
    pub func: u32,
    pub sa: u32,
    pub rd: usize,
    pub rt: usize,
    pub rs: usize,
    pub opcode: u32,
}

/// An immediate-format instruction.
#[derive(Copy, Clone, Debug, PartialEq, Eq, Structural)]
pub struct IType {
    pub imm: u32,
    pub rt: usize,
    pub rs: usize,
    pub opcode: u32,
}

/// A jump-format instruction.
#[derive(Copy, Clone, Debug, PartialEq, Eq, Structural)]
pub struct JType {
    pub imm: u32,
    pub opcode: u32,
}

impl From<u32> for RType {
    fn from(word: u32) -> (r: Self) {
        RType {
            func: word & 0x3f,
            sa: (word >> 6u32) & 31,
            rd: ((word >> 11u32) & 31) as usize,
            rt: ((word >> 16u32) & 31) as usize,
            rs: ((word >> 21u32) & 31) as usize,
            opcode: word >> 26u32,
        }
    }
}

impl vstd::std_specs::convert::FromSpecImpl<u32> for RType {
    open spec fn obeys_from_spec() -> bool {
        true
    }

    open spec fn from_spec(word: u32) -> RType {
        RType {
            func: word & 0x3f,
            sa: (word >> 6u32) & 31,
            rd: ((word >> 11u32) & 31) as usize,
            rt: ((word >> 16u32) & 31) as usize,
            rs: ((word >> 21u32) & 31) as usize,
            opcode: word >> 26u32,
        }
    }
}

impl From<u32> for IType {
    fn from(word: u32) -> (r: Self) {
        IType {
            imm: word & 0xffff,
            rt: ((word >> 16u32) & 31) as usize,
            rs: ((word >> 21u32) & 31) as usize,
            opcode: word >> 26u32,
        }
    }
}

impl vstd::std_specs::convert::FromSpecImpl<u32> for IType {
    open spec fn obeys_from_spec() -> bool {
        true
    }

    open spec fn from_spec(word: u32) -> IType {
        IType {
            imm: word & 0xffff,
            rt: ((word >> 16u32) & 31) as usize,
            rs: ((word >> 21u32) & 31) as usize,
            opcode: word >> 26u32,
        }
    }
}

impl From<u32> for JType {
    fn from(word: u32) -> (r: Self) {
        JType { imm: word & 0x03ff_ffff, opcode: word >> 26u32 }
    }
}

impl vstd::std_specs::convert::FromSpecImpl<u32> for JType {
    open spec fn obeys_from_spec() -> bool {
        true
    }

    open spec fn from_spec(word: u32) -> JType {
        JType { imm: word & 0x03ff_ffff, opcode: word >> 26u32 }
    }
}

/// The register fields of an instruction, each below 32.
pub fn registers(word: u32) -> (r: (usize, usize, usize))
    ensures
        r.0 == field_rs(word),
        r.1 == field_rt(word),
        r.2 == field_rd(word),
        r.0 < 32,
        r.1 < 32,
        r.2 < 32,
{
    proof {
        crate::bits::lemma_mask_bounds();
    }
    (((word >> 21u32) & 31) as usize, ((word >> 16u32) & 31) as usize, ((word >> 11u32) & 31) as usize)
}

} // verus!
