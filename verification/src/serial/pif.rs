//! The PIF: its boot ROM and RAM, and the JoyBus command interpreter that
//! answers the CPU's controller queries.

use crate::joypad::JoypadState;
use crate::memory::{
    read_be_u16, read_be_u32, read_be_u64, spec_read_be_u16, spec_read_be_u32, spec_read_be_u64,
    spec_write_be_u16, spec_write_be_u32, spec_write_be_u64, write_be_u16, write_be_u32, write_be_u64,
};
use arrayvec::{ArrayVec, CapacityError};
use vstd::prelude::*;

verus! {

pub const PIF_SIZE: usize = 0x800;
pub const PIF_RAM_START: usize = 0x7c0;

#[verifier::external_type_specification]
#[verifier::external_body]
#[verifier::reject_recursive_types(T)]
pub struct ExArrayVec<T, const CAP: usize>(ArrayVec<T, CAP>);

#[verifier::external_type_specification]
#[verifier::external_body]
#[verifier::reject_recursive_types(T)]
pub struct ExCapacityError<T>(CapacityError<T>);

/// The bytes that an `ArrayVec` of JoyBus data holds.
pub uninterp spec fn joybus_bytes(v: ArrayVec<u8, 64>) -> Seq<u8>;

/// `ArrayVec::new`: an empty vector.
#[verifier::external_body]
fn joybus_new() -> (r: ArrayVec<u8, 64>)
    ensures
        joybus_bytes(r) == Seq::<u8>::empty(),
{
    ArrayVec::new()
}

/// `ArrayVec::push`: appends a byte; it panics when the vector is full,
/// which the precondition excludes.
#[verifier::external_body]
fn joybus_push(v: &mut ArrayVec<u8, 64>, byte: u8)
    requires
        joybus_bytes(*old(v)).len() < 64,
    ensures
        joybus_bytes(*final(v)) == joybus_bytes(*old(v)).push(byte),
{
    v.push(byte)
}

/// `ArrayVec::try_extend_from_slice`: appends the slice when it fits in
/// the remaining capacity, and otherwise fails and leaves the vector as
/// it was.
#[verifier::external_body]
fn joybus_extend(v: &mut ArrayVec<u8, 64>, other: &[u8]) -> (r: Result<(), CapacityError>)
    ensures
        joybus_bytes(*old(v)).len() + other@.len() <= 64 ==> r is Ok && joybus_bytes(*final(v))
            == joybus_bytes(*old(v)) + other@,
        joybus_bytes(*old(v)).len() + other@.len() > 64 ==> r is Err && joybus_bytes(*final(v))
            == joybus_bytes(*old(v)),
{
    v.try_extend_from_slice(other)
}

/// `ArrayVec::as_slice`: the bytes held.
#[verifier::external_body]
fn joybus_as_slice(v: &ArrayVec<u8, 64>) -> (r: &[u8])
    ensures
        r@ == joybus_bytes(*v),
{
    v.as_slice()
}

/// Whether bit `k` (most significant bit of each byte first) of the CRC
/// input is set; the bits past the data are the eight zero bits that
/// flush the register.
pub open spec fn crc_bit(data: Seq<u8>, k: int) -> bool {
    k / 8 < data.len() && data[k / 8] & (1u8 << ((7 - k % 8) as u8)) != 0
}

/// The CRC register after shifting in the first `n` input bits
/// (polynomial 0x85).
pub open spec fn crc_steps(data: Seq<u8>, n: nat) -> u8
    decreases n,
{
    if n == 0 {
        0
    } else {
        crc_step(crc_steps(data, (n - 1) as nat), crc_bit(data, n - 1))
    }
}

/// The CRC register `r` after shifting in one input bit.
pub open spec fn crc_step(r: u8, bit: bool) -> u8 {
    let tap: u8 = if r & 0x80 != 0 {
        0x85
    } else {
        0
    };
    let shifted: u8 = if bit {
        ((r << 1u8) as u8) | 1
    } else {
        (r << 1u8) as u8
    };
    shifted ^ tap
}

/// The bit facts behind the CRC's linearity.
proof fn lemma_crc_bits()
    by (bit_vector)
    ensures
        0u8 ^ 0u8 == 0u8,
        forall|a: u8, b: u8, j: u8|
            #[trigger] ((a ^ b) & (1u8 << j)) != 0 == ((a & (1u8 << j) != 0) != (b & (1u8 << j) != 0)),
        forall|ra: u8, rb: u8, ba: bool, bb: bool|
            crc_step(ra ^ rb, ba != bb) == #[trigger] crc_step(ra, ba) ^ #[trigger] crc_step(rb, bb),
{
}

proof fn lemma_crc_steps_xor(a: Seq<u8>, b: Seq<u8>, x: Seq<u8>, n: nat)
    requires
        a.len() == b.len() == x.len(),
        forall|i: int| 0 <= i < x.len() ==> #[trigger] x[i] == a[i] ^ b[i],
    ensures
        crc_steps(x, n) == crc_steps(a, n) ^ crc_steps(b, n),
    decreases n,
{
    lemma_crc_bits();
    if n > 0 {
        let k = n - 1;
        lemma_crc_steps_xor(a, b, x, (n - 1) as nat);
        let j = (7 - k % 8) as u8;
        if k / 8 < x.len() {
            let i = k / 8;
            let (ai, bi, xi) = (a[i], b[i], x[i]);
            assert(xi == ai ^ bi);
            assert(((ai ^ bi) & (1u8 << j) != 0) == ((ai & (1u8 << j) != 0) != (bi & (1u8 << j)
                != 0)));
        }
        assert(crc_bit(x, k) == (crc_bit(a, k) != crc_bit(b, k)));
        let ra = crc_steps(a, (n - 1) as nat);
        let rb = crc_steps(b, (n - 1) as nat);
        let ba = crc_bit(a, k);
        let bb = crc_bit(b, k);
        assert(crc_step(ra ^ rb, ba != bb) == crc_step(ra, ba) ^ crc_step(rb, bb));
    }
}

/// The CRC is linear under XOR: the CRC of two equally long blocks XORed
/// byte by byte is the XOR of their CRCs.
pub proof fn lemma_crc_xor(a: Seq<u8>, b: Seq<u8>, x: Seq<u8>)
    requires
        a.len() == b.len() == x.len(),
        forall|i: int| 0 <= i < x.len() ==> #[trigger] x[i] == a[i] ^ b[i],
    ensures
        spec_crc(x) == spec_crc(a) ^ spec_crc(b),
{
    lemma_crc_steps_xor(a, b, x, (8 * (x.len() + 1)) as nat);
}

/// The CRC of the Controller Pak data `data`.
pub open spec fn spec_crc(data: Seq<u8>) -> u8 {
    crc_steps(data, (8 * (data.len() + 1)) as nat)
}

/// The CRC used to check Controller Pak data blocks.
pub fn crc(data: &[u8]) -> (r: u8)
    requires
        data@.len() == 32,
    ensures
        r == spec_crc(data@),
{
    let mut result: u8 = 0;
    let len = data.len();
    let mut index: usize = 0;
    while index <= len
        invariant
            len == data@.len() == 32,
            index <= len + 1,
            result == crc_steps(data@, (8 * index) as nat),
        decreases len + 1 - index,
    {
        let mut bit: u8 = 8;
        while bit > 0
            invariant
                len == data@.len() == 32,
                index <= len,
                bit <= 8,
                result == crc_steps(data@, (8 * index + (8 - bit)) as nat),
            decreases bit,
        {
            bit = bit - 1;
            let ghost k: int = 8 * index + (7 - bit);
            assert(k / 8 == index as int && k % 8 == 7 - bit) by (nonlinear_arith)
                requires
                    k == 8 * index + (7 - bit),
                    bit < 8,
            ;
            let xor_tap: u8 = if (result & 0x80) != 0 {
                0x85
            } else {
                0
            };
            result = result << 1;
            if index < len && (data[index] & (1u8 << bit)) != 0 {
                result = result | 1;
            }
            result = result ^ xor_tap;
        }
        index = index + 1;
    }
    result
}

/// The JoyBus commands that `query_joybus` accepts on a channel.
pub open spec fn query_ok(channel: int, input: Seq<u8>) -> bool {
    input.len() >= 1 && {
        let command = input[0];
        if command == 0x00 || command == 0xff {
            channel <= 4
        } else if command == 0x01 || command == 0x02 {
            channel <= 3
        } else if command == 0x03 {
            channel <= 3 && input.len() >= 35
        } else {
            command == 0x04 || command == 0x05
        }
    }
}

/// The response of the device on `channel` to the command `input`:
/// channel 0 is a controller (status, button state, Controller Pak
/// accesses), channels 1 to 3 hold no device, and channel 4 is a 4 Kbit
/// EEPROM.
pub open spec fn joybus_response(joypads: Seq<Seq<u8>>, channel: int, input: Seq<u8>) -> Option<
    Seq<u8>,
> {
    let command = input[0];
    if command == 0x00 || command == 0xff {
        if channel == 0 {
            Some(seq![0x05u8, 0x00, 0x02])
        } else if channel == 4 {
            Some(seq![0x00u8, 0x80, 0x00])
        } else {
            None
        }
    } else if command == 0x01 {
        Some(joypads[channel])
    } else if command == 0x02 {
        Some(Seq::new(32, |i: int| 0u8).push(spec_crc(Seq::new(32, |i: int| 0u8))))
    } else if command == 0x03 {
        Some(seq![spec_crc(input.subrange(3, 35))])
    } else if command == 0x04 {
        Some(Seq::new(8, |i: int| 0u8))
    } else {
        Some(seq![0x00u8])
    }
}

/// The result of interpreting the JoyBus command program in `input` from
/// position `index` on `channel`, with PIF RAM `ram`: whether every command
/// could be answered, and the resulting RAM.
pub open spec fn joybus_run(
    input: Seq<u8>,
    joypads: Seq<Seq<u8>>,
    ram: Seq<u8>,
    index: int,
    channel: int,
) -> (bool, Seq<u8>)
    decreases 64 - index,
{
    if index >= 63 || index < 0 {
        (true, ram)
    } else {
        let send = input[index];
        let i1 = index + 1;
        if send == 0xfe {
            (true, ram)
        } else if send & 0xc0 != 0 {
            joybus_run(input, joypads, ram, i1, channel)
        } else if send == 0 {
            joybus_run(input, joypads, ram, i1, channel + 1)
        } else {
            let recv = input[i1];
            let i2 = i1 + 1;
            if recv == 0xfe {
                (true, ram)
            } else if i2 + send > 64 {
                (true, ram)
            } else {
                let data = input.subrange(i2, i2 + send);
                let i3 = i2 + send;
                if i3 + recv > 64 {
                    (true, ram)
                } else if !query_ok(channel, data) {
                    (false, ram)
                } else {
                    match joybus_response(joypads, channel, data) {
                        Some(response) => if i3 + response.len() > 64 {
                            (false, ram)
                        } else {
                            joybus_run(
                                input,
                                joypads,
                                ram.subrange(0, i3) + response + ram.subrange(
                                    i3 + response.len(),
                                    64,
                                ),
                                i3 + response.len(),
                                channel + 1,
                            )
                        },
                        None => joybus_run(
                            input,
                            joypads,
                            ram.update(i3 - 2, ram[i3 - 2] | 0x80),
                            i3,
                            channel + 1,
                        ),
                    }
                }
            }
        }
    }
}

/// A flag bit: `bit` when `on`, else zero.
pub open spec fn flag(on: bool, bit: u8) -> u8 {
    if on {
        bit
    } else {
        0
    }
}

/// Rust's truncating division.
pub open spec fn trunc_div(x: int, d: int) -> int {
    if x >= 0 {
        x / d
    } else {
        -((-x) / d)
    }
}

/// The signed byte that reports an analog stick axis (-80 to 80 over the
/// axis range).
pub open spec fn stick_byte(axis: i32) -> u8 {
    (((trunc_div(axis as int, 20) * 13) as i32) >> 24i32) as u8
}

/// The first button byte: A, B, Z, Start, D-Up, D-Down, D-Left, D-Right.
pub open spec fn buttons_byte0(b: Seq<bool>) -> u8 {
    flag(b[0], 0x80) | flag(b[2], 0x40) | flag(b[4], 0x20) | flag(b[9], 0x10) | flag(b[12], 0x08)
        | flag(b[13], 0x04) | flag(b[14], 0x02) | flag(b[15], 0x01)
}

/// The first button byte reports each host button on a bit of its own:
/// A (button 0) on bit 7, B (2) on bit 6, Z (4) on bit 5, Start (9) on
/// bit 4, and the D-pad's up, down, left and right (12 to 15) on bits 3
/// to 0.
pub proof fn lemma_button_byte_bits(b: Seq<bool>)
    ensures
        (buttons_byte0(b) & 0x80 != 0) == b[0],
        (buttons_byte0(b) & 0x40 != 0) == b[2],
        (buttons_byte0(b) & 0x20 != 0) == b[4],
        (buttons_byte0(b) & 0x10 != 0) == b[9],
        (buttons_byte0(b) & 0x08 != 0) == b[12],
        (buttons_byte0(b) & 0x04 != 0) == b[13],
        (buttons_byte0(b) & 0x02 != 0) == b[14],
        (buttons_byte0(b) & 0x01 != 0) == b[15],
{
    crate::bits::lemma_law_bits();
    let y = crate::bits::bit_if(b[0], 0x80) | crate::bits::bit_if(b[2], 0x40) | crate::bits::bit_if(
        b[4],
        0x20,
    ) | crate::bits::bit_if(b[9], 0x10) | crate::bits::bit_if(b[12], 0x08) | crate::bits::bit_if(
        b[13],
        0x04,
    ) | crate::bits::bit_if(b[14], 0x02) | crate::bits::bit_if(b[15], 0x01);
    assert(buttons_byte0(b) == y);
}

/// The second button byte: L, R, C-Up, C-Down, C-Left, C-Right (the C
/// buttons come from the right stick, or from the B and Y face buttons).
pub open spec fn buttons_byte1(b: Seq<bool>, axes: Seq<i32>) -> u8 {
    flag(b[6], 0x20) | flag(b[5] || b[7], 0x10) | flag(axes[3] > 1610612733, 0x08) | flag(
        b[1] || axes[3] < -1610612736,
        0x04,
    ) | flag(b[3] || axes[2] < -1610612736, 0x02) | flag(axes[2] > 1610612733, 0x01)
}

fn flag_exec(on: bool, bit: u8) -> (r: u8)
    ensures
        r == flag(on, bit),
{
    if on {
        bit
    } else {
        0
    }
}

fn stick(axis: i32) -> (r: u8)
    ensures
        r == stick_byte(axis),
{
    let scaled = axis / 20;
    assert(-107374183 <= scaled <= 107374183);
    (((scaled * 13) >> 24) as u8)
}

/// The controllers' bytes as a sequence of sequences.
pub open spec fn joypads_view(joypads: [[u8; 4]; 4]) -> Seq<Seq<u8>> {
    Seq::new(4, |i: int| joypads@[i]@)
}

/// Answers one JoyBus command `input` sent on `channel`; `None` when no
/// device is attached there.
pub fn query_joybus(joypads: &[[u8; 4]; 4], channel: usize, input: &[u8]) -> (r: Option<
    ArrayVec<u8, 64>,
>)
    requires
        query_ok(channel as int, input@),
    ensures
        match (r, joybus_response(joypads_view(*joypads), channel as int, input@)) {
            (Some(v), Some(s)) => joybus_bytes(v) == s,
            (None, None) => true,
            _ => false,
        },
{
    let mut output = joybus_new();
    let command = input[0];

    if command == 0x00 || command == 0xff {
        if channel == 0 {
            joybus_push(&mut output, 0x05);
            joybus_push(&mut output, 0x00);
            joybus_push(&mut output, 0x02);
            assert(joybus_bytes(output) =~= seq![0x05u8, 0x00, 0x02]);
        } else if channel == 4 {
            joybus_push(&mut output, 0x00);
            joybus_push(&mut output, 0x80);
            joybus_push(&mut output, 0x00);
            assert(joybus_bytes(output) =~= seq![0x00u8, 0x80, 0x00]);
        } else {
            return None;
        }
    } else if command == 0x01 {
        let pad: &[u8] = joypads[channel].as_slice();
        match joybus_extend(&mut output, pad) {
            Ok(()) => {},
            Err(_) => {},
        }
        assert(joybus_bytes(output) =~= joypads_view(*joypads)[channel as int]);
    } else if command == 0x02 {
        let mut i: usize = 0;
        while i < 32
            invariant
                i <= 32,
                joybus_bytes(output) == Seq::new(i as nat, |j: int| 0u8),
            decreases 32 - i,
        {
            joybus_push(&mut output, 0);
            i = i + 1;
            assert(joybus_bytes(output) =~= Seq::new(i as nat, |j: int| 0u8));
        }
        let block = joybus_as_slice(&output);
        let c = crc(block);
        joybus_push(&mut output, c);
    } else if command == 0x03 {
        let c = crc(&input[3..35]);
        joybus_push(&mut output, c);
        assert(joybus_bytes(output) =~= seq![spec_crc(input@.subrange(3, 35))]);
    } else if command == 0x04 {
        let mut i: usize = 0;
        while i < 8
            invariant
                i <= 8,
                joybus_bytes(output) == Seq::new(i as nat, |j: int| 0u8),
            decreases 8 - i,
        {
            joybus_push(&mut output, 0);
            i = i + 1;
            assert(joybus_bytes(output) =~= Seq::new(i as nat, |j: int| 0u8));
        }
    } else {
        joybus_push(&mut output, 0x00);
        assert(joybus_bytes(output) =~= seq![0x00u8]);
    }

    Some(output)
}

/// Whether the command program of `pif` can be interpreted: it is not
/// flagged for execution, or every command in it is one that the devices
/// answer and every answer fits in PIF RAM.
pub open spec fn commands_ok(pif: Pif) -> bool {
    pif.spec_input()[0x3f] & 1 == 0 || joybus_run(
        pif.spec_input(),
        pif.spec_joypads(),
        pif.spec_ram(),
        0,
        0,
    ).0
}

pub struct Pif {
    data: Vec<u8>,
    input: [u8; 64],
    joypads: [[u8; 4]; 4],
}

/// The PIF after a write of the word `value` at `address`: PIF RAM takes
/// it, the ROM stays.
pub open spec fn pif_write_post(o: Pif, n: Pif, address: u32, value: u32) -> bool {
    &&& n.spec_input() == o.spec_input()
    &&& n.spec_joypads() == o.spec_joypads()
    &&& address >= PIF_RAM_START ==> n.spec_data() == spec_write_be_u32(
        o.spec_data(),
        address as int,
        value,
    )
    &&& address < PIF_RAM_START ==> n.spec_data() == o.spec_data()
}

impl Pif {
    /// PIF ROM and RAM.
    pub closed spec fn spec_data(&self) -> Seq<u8> {
        self.data@
    }

    /// The command program as the last upload captured it.
    pub closed spec fn spec_input(&self) -> Seq<u8> {
        self.input@
    }

    /// The controllers' button and stick bytes.
    pub closed spec fn spec_joypads(&self) -> Seq<Seq<u8>> {
        Seq::new(4, |i: int| self.joypads@[i]@)
    }

    pub closed spec fn wf(&self) -> bool {
        self.data@.len() == PIF_SIZE
    }

    pub proof fn lemma_wf(&self)
        requires
            self.wf(),
        ensures
            self.spec_data().len() == PIF_SIZE,
    {
    }

    /// PIF RAM.
    pub open spec fn spec_ram(&self) -> Seq<u8> {
        self.spec_data().subrange(PIF_RAM_START as int, PIF_SIZE as int)
    }

    /// `self` is `old` after interpreting its command program.
    pub open spec fn processed_from(self, old: Pif) -> bool {
        &&& self.wf()
        &&& self.spec_input() == old.spec_input()
        &&& self.spec_joypads() == old.spec_joypads()
        &&& if old.spec_input()[0x3f] & 1 == 0 {
            self.spec_data() == old.spec_data()
        } else {
            self.spec_data() == old.spec_data().subrange(0, PIF_RAM_START as int) + joybus_run(
                old.spec_input(),
                old.spec_joypads(),
                old.spec_ram(),
                0,
                0,
            ).1.update(0x3f, 0)
        }
    }

    pub fn new() -> (r: Self)
        ensures
            r.wf(),
            r.spec_data() == Seq::new(0x800, |i: int| 0u8),
            r.spec_input() == Seq::new(64, |i: int| 0u8),
            r.spec_joypads() == Seq::new(4, |i: int| Seq::new(4, |j: int| 0u8)),
    {
        let r = Pif { data: vec![0u8; PIF_SIZE], input: [0;64], joypads: [[0;4];4] };
        assert(r.data@ =~= Seq::new(0x800, |i: int| 0u8));
        assert(r.input@ =~= Seq::new(64, |i: int| 0u8));
        assert(r.spec_joypads() =~= Seq::new(4, |i: int| Seq::new(4, |j: int| 0u8))) by {
            assert forall|i: int| 0 <= i < 4 implies r.joypads@[i]@ =~= Seq::new(4, |j: int| 0u8) by {}
        }
        r
    }

    /// Reads the big-endian word at `address`.
    pub fn read(&self, address: u32) -> (r: u32)
        requires
            self.wf(),
            address + 4 <= PIF_SIZE,
        ensures
            r == spec_read_be_u32(self.spec_data(), address as int),
    {
        read_be_u32(self.data.as_slice(), address as usize)
    }

    /// Reads the byte at `address`.
    pub fn read_u8(&self, address: u32) -> (r: u8)
        requires
            self.wf(),
            address < PIF_SIZE,
        ensures
            r == self.spec_data()[address as int],
    {
        self.data[address as usize]
    }

    /// Reads the big-endian halfword at `address`.
    pub fn read_u16(&self, address: u32) -> (r: u16)
        requires
            self.wf(),
            address + 2 <= PIF_SIZE,
        ensures
            r == spec_read_be_u16(self.spec_data(), address as int),
    {
        read_be_u16(self.data.as_slice(), address as usize)
    }

    /// Reads the big-endian doubleword at `address`.
    pub fn read_u64(&self, address: u32) -> (r: u64)
        requires
            self.wf(),
            address + 8 <= PIF_SIZE,
        ensures
            r == spec_read_be_u64(self.spec_data(), address as int),
    {
        read_be_u64(self.data.as_slice(), address as usize)
    }

    /// Stores a big-endian word in PIF RAM; the ROM cannot be written.
    pub fn write(&mut self, address: u32, value: u32)
        requires
            old(self).wf(),
            address + 4 <= PIF_SIZE,
        ensures
            final(self).wf(),
            pif_write_post(*old(self), *final(self), address, value),
    {
        let address = address as usize;
        if address >= PIF_RAM_START {
            write_be_u32(&mut self.data, address, value);
        }
    }

    /// Stores a big-endian halfword in PIF RAM; the ROM cannot be written.
    pub fn write_u16(&mut self, address: u32, value: u16)
        requires
            old(self).wf(),
            address + 2 <= PIF_SIZE,
        ensures
            final(self).wf(),
            final(self).spec_input() == old(self).spec_input(),
            final(self).spec_joypads() == old(self).spec_joypads(),
            address >= PIF_RAM_START ==> final(self).spec_data() == spec_write_be_u16(
                old(self).spec_data(),
                address as int,
                value,
            ),
            address < PIF_RAM_START ==> final(self).spec_data() == old(self).spec_data(),
    {
        let address = address as usize;
        if address >= PIF_RAM_START {
            write_be_u16(&mut self.data, address, value);
        }
    }

    /// Stores a big-endian doubleword in PIF RAM; the ROM cannot be written.
    pub fn write_u64(&mut self, address: u32, value: u64)
        requires
            old(self).wf(),
            address + 8 <= PIF_SIZE,
        ensures
            final(self).wf(),
            final(self).spec_input() == old(self).spec_input(),
            final(self).spec_joypads() == old(self).spec_joypads(),
            address >= PIF_RAM_START ==> final(self).spec_data() == spec_write_be_u64(
                old(self).spec_data(),
                address as int,
                value,
            ),
            address < PIF_RAM_START ==> final(self).spec_data() == old(self).spec_data(),
    {
        let address = address as usize;
        if address >= PIF_RAM_START {
            write_be_u64(&mut self.data, address, value);
        }
    }

    /// Stores a byte in PIF RAM; the ROM cannot be written.
    pub fn write_u8(&mut self, address: u32, value: u8)
        requires
            old(self).wf(),
            address < PIF_SIZE,
        ensures
            final(self).wf(),
            final(self).spec_input() == old(self).spec_input(),
            final(self).spec_joypads() == old(self).spec_joypads(),
            address >= PIF_RAM_START ==> final(self).spec_data() == old(self).spec_data().update(
                address as int,
                value,
            ),
            address < PIF_RAM_START ==> final(self).spec_data() == old(self).spec_data(),
    {
        let address = address as usize;
        if address >= PIF_RAM_START {
            self.data.set(address, value);
        }
    }

    /// Interprets the command program (when its last byte has bit 0 set):
    /// each command is sent to the device on the current channel and the
    /// answer is written after it in PIF RAM, or the receive length byte is
    /// flagged when no device answers. Clears the last byte of PIF RAM.
    pub fn process(&mut self)
        requires
            old(self).wf(),
            commands_ok(*old(self)),
        ensures
            final(self).processed_from(*old(self)),
    {
        if (self.input[0x3f] & 0x01) == 0 {
            return;
        }

        let ghost input = self.input@;
        let ghost joypads = self.spec_joypads();
        let ghost result = joybus_run(input, joypads, old(self).spec_ram(), 0, 0);
        let mut channel: usize = 0;
        let mut index: usize = 0;
        let mut done = false;

        while !done && index < 63
            invariant
                self.wf(),
                self.input@ == input,
                input.len() == 64,
                self.joypads == old(self).joypads,
                joypads == joypads_view(self.joypads),
                self.data@.subrange(0, PIF_RAM_START as int) == old(self).data@.subrange(
                    0,
                    PIF_RAM_START as int,
                ),
                result.0,
                index <= 64,
                channel <= index,
                !done ==> joybus_run(input, joypads, self.spec_ram(), index as int, channel as int)
                    == result,
                done ==> self.spec_ram() == result.1,
            decreases 64 - index, if done { 0int } else { 1int },
        {
            let ghost before = self.spec_ram();
            let ghost index0 = index as int;
            let ghost channel0 = channel as int;
            let send = self.input[index] as usize;
            index = index + 1;

            if send == 0xfe {
                done = true;
            } else if (send & 0xc0) != 0 {
            } else if send == 0 {
                channel = channel + 1;
            } else {
                let recv = self.input[index] as usize;
                index = index + 1;

                if recv == 0xfe {
                    done = true;
                } else if index + send > 64 {
                    done = true;
                } else {
                    let mut send_data = joybus_new();
                    let slice = self.input.as_slice();
                    match joybus_extend(&mut send_data, &slice[index..index + send]) {
                        Ok(()) => {},
                        Err(_) => {},
                    }
                    let ghost data = input.subrange(index as int, index + send);
                    assert(joybus_bytes(send_data) =~= data);
                    index = index + send;

                    if index + recv > 64 {
                        done = true;
                    } else {
                        let response = query_joybus(
                            &self.joypads,
                            channel,
                            joybus_as_slice(&send_data),
                        );
                        match response {
                            Some(recv_data) => {
                                let bytes = joybus_as_slice(&recv_data);
                                let len = bytes.len();
                                let mut k: usize = 0;
                                while k < len
                                    invariant
                                        self.wf(),
                                        index + len <= 64,
                                        before.len() == 64,
                                        k <= len,
                                        len == bytes@.len(),
                                        self.input@ == input,
                                        self.joypads == old(self).joypads,
                                        self.data@.subrange(0, PIF_RAM_START as int)
                                            == old(self).data@.subrange(0, PIF_RAM_START as int),
                                        self.spec_ram() == before.subrange(0, index as int)
                                            + bytes@.subrange(0, k as int) + before.subrange(
                                            index + k,
                                            64,
                                        ),
                                    decreases len - k,
                                {
                                    let ghost prev = self.spec_ram();
                                    self.data.set(PIF_RAM_START + index + k, bytes[k]);
                                    assert(self.spec_ram() =~= prev.update(
                                        index + k,
                                        bytes@[k as int],
                                    ));
                                    k = k + 1;
                                    assert(self.spec_ram() =~= before.subrange(0, index as int)
                                        + bytes@.subrange(0, k as int) + before.subrange(
                                        index + k,
                                        64,
                                    ));
                                }
                                assert(bytes@.subrange(0, len as int) =~= bytes@);
                                index = index + len;
                            },
                            None => {
                                let at = PIF_RAM_START + index - 2;
                                let flagged = self.data[at] | 0x80;
                                self.data.set(at, flagged);
                                assert(self.spec_ram() =~= before.update(
                                    index - 2,
                                    before[index - 2] | 0x80,
                                ));
                            },
                        }
                        channel = channel + 1;
                    }
                }
            }
        }

        self.data.set(PIF_RAM_START + 0x3f, 0);
        assert(self.data@ =~= old(self).data@.subrange(0, PIF_RAM_START as int) + result.1.update(
            0x3f,
            0,
        ));
    }

    /// Sets the first controller's bytes from the host controller state.
    pub fn update_joypad(&mut self, state: &JoypadState)
        ensures
            final(self).spec_data() == old(self).spec_data(),
            final(self).spec_input() == old(self).spec_input(),
            final(self).wf() == old(self).wf(),
            final(self).spec_joypads() == old(self).spec_joypads().update(
                0,
                seq![
                    buttons_byte0(state.buttons@),
                    buttons_byte1(state.buttons@, state.axes@),
                    stick_byte(state.axes[0]),
                    stick_byte(state.axes[1]),
                ],
            ),
    {
        let buttons = &state.buttons;
        let axes = &state.axes;

        let byte0 = flag_exec(buttons[0], 0x80) | flag_exec(buttons[2], 0x40) | flag_exec(
            buttons[4],
            0x20,
        ) | flag_exec(buttons[9], 0x10) | flag_exec(buttons[12], 0x08) | flag_exec(
            buttons[13],
            0x04,
        ) | flag_exec(buttons[14], 0x02) | flag_exec(buttons[15], 0x01);

        let byte1 = flag_exec(buttons[6], 0x20) | flag_exec(buttons[5] || buttons[7], 0x10)
            | flag_exec(axes[3] > (i32::MAX / 4 * 3), 0x08) | flag_exec(
            buttons[1] || axes[3] < (i32::MIN / 4 * 3),
            0x04,
        ) | flag_exec(buttons[3] || axes[2] < (i32::MIN / 4 * 3), 0x02) | flag_exec(
            axes[2] > (i32::MAX / 4 * 3),
            0x01,
        );

        let joypad = [byte0, byte1, stick(axes[0]), stick(axes[1])];
        self.joypads[0] = joypad;
        assert(self.spec_joypads() =~= old(self).spec_joypads().update(
            0,
            seq![
                buttons_byte0(state.buttons@),
                buttons_byte1(state.buttons@, state.axes@),
                stick_byte(state.axes[0]),
                stick_byte(state.axes[1]),
            ],
        )) by {
            assert(joypad@ =~= seq![
                buttons_byte0(state.buttons@),
                buttons_byte1(state.buttons@, state.axes@),
                stick_byte(state.axes[0]),
                stick_byte(state.axes[1]),
            ]);
        }
    }

    /// Captures PIF RAM as the command program.
    pub fn upload(&mut self)
        requires
            old(self).wf(),
        ensures
            final(self).wf(),
            final(self).spec_input() == old(self).spec_ram(),
            final(self).spec_data() == old(self).spec_data(),
            final(self).spec_joypads() == old(self).spec_joypads(),
    {
        let mut i: usize = 0;
        while i < 64
            invariant
                i <= 64,
                self.data@ == old(self).data@,
                self.data@.len() == PIF_SIZE,
                self.joypads == old(self).joypads,
                forall|j: int| 0 <= j < i ==> #[trigger] self.input@[j] == self.data@[
                    PIF_RAM_START + j],
            decreases 64 - i,
        {
            self.input[i] = self.data[PIF_RAM_START + i];
            i = i + 1;
        }
        assert(self.input@ =~= old(self).spec_ram());
    }
}

} // verus!
