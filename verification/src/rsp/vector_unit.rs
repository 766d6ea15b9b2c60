//! The vector unit of the RSP's first implementation: 32 registers of
//! eight 16-bit elements.

pub mod vector;

use vstd::prelude::*;

verus! {

pub struct VectorUnit {
    regs: [[u16; 8]; 32],
}

impl VectorUnit {
    pub closed spec fn spec_regs(&self) -> Seq<Seq<u16>> {
        Seq::new(32, |i: int| self.regs@[i]@)
    }

    pub fn new() -> (r: Self)
        ensures
            forall|i: int, j: int| 0 <= i < 32 && 0 <= j < 8 ==> #[trigger] r.spec_regs()[i][j] == 0,
    {
        VectorUnit { regs: [[0;8];32] }
    }
}

} // verus!
