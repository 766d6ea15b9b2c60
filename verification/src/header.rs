//! The N64 cartridge header.

use crate::memory::{read_be_u32, spec_read_be_u32};
use vstd::prelude::*;

verus! {

pub struct Header {
    pub title: String,
    pub boot_address: u32,
}

/// The text that `String::from_utf8_lossy` makes of `bytes`.
pub uninterp spec fn utf8_lossy(bytes: Seq<u8>) -> Seq<char>;

/// `String::from_utf8_lossy`, converted to an owned `String`: invalid
/// UTF-8 sequences are replaced by U+FFFD. Its documentation gives that
/// valid UTF-8, and so ASCII, is kept as it is; the contract states that
/// for ASCII bytes and names the result otherwise.
#[verifier::external_body]
fn lossy_string(bytes: &[u8]) -> (r: String)
    ensures
        r@ == utf8_lossy(bytes@),
        (forall|i: int| 0 <= i < bytes@.len() ==> #[trigger] bytes@[i] < 0x80) ==> r@ == Seq::new(
            bytes@.len(),
            |i: int| bytes@[i] as char,
        ),
{
    String::from_utf8_lossy(bytes).into_owned()
}

/// Reads the boot address (offset 0x08) and the title (offsets 0x20 to
/// 0x33) of a ROM image.
pub fn parse(rom: &[u8]) -> (r: Header)
    requires
        rom@.len() >= 0x34,
    ensures
        r.boot_address == spec_read_be_u32(rom@, 0x08),
        r.title@ == utf8_lossy(rom@.subrange(0x20, 0x34)),
        (forall|i: int| 0x20 <= i < 0x34 ==> #[trigger] rom@[i] < 0x80) ==> r.title@ == Seq::new(
            20,
            |i: int| rom@[0x20 + i] as char,
        ),
{
    let boot_address = read_be_u32(rom, 0x08);
    let name = &rom[0x20..0x34];
    assert(name@ == rom@.subrange(0x20, 0x34));
    let title = lossy_string(name);
    Header { title, boot_address }
}

} // verus!
