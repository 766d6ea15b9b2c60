//! CACHE and SYNC, which the emulation treats as no operation.

use crate::mips::Core;
use vstd::prelude::*;

verus! {

/// CACHE: cache maintenance, which has no effect here.
pub fn cache(core: &mut Core, word: u32)
    ensures
        final(core)@ == old(core)@,
{
}

/// SYNC: a no-op on these processors.
pub fn sync(core: &mut Core, word: u32)
    ensures
        final(core)@ == old(core)@,
{
}

} // verus!
