//! The Audio Interface (AI): a two-entry DMA queue of sample buffers that
//! plays back at the rate chosen by AI_DACRATE.

use crate::interrupt::{RcpIntType, RcpInterrupt};
use crate::memory::{spec_apply, Masked};
use vstd::prelude::*;

verus! {

/// The clock of the audio DAC, in Hz.
pub const DAC_FREQUENCY: i64 = 48681812;

/// The abstract state of the audio interface.
pub struct AudioView {
    pub dram_addr: u32,
    pub length: u32,
    pub dma_enabled: bool,
    pub dac_rate: u32,
    pub bit_rate: u32,
    pub counter: i64,
    pub dma_count: u32,
    pub samples: Seq<i64>,
}

/// The interface after reset: no DMA, rates and counters at zero.
pub open spec fn ai_reset() -> AudioView {
    AudioView {
        dram_addr: 0,
        length: 0,
        dma_enabled: false,
        dac_rate: 0,
        bit_rate: 0,
        counter: 0,
        dma_count: 0,
        samples: seq![0i64, 0i64],
    }
}

pub struct AudioInterface {
    dram_addr: u32,
    length: u32,
    dma_enabled: bool,
    dac_rate: u32,
    bit_rate: u32,
    counter: i64,
    dma_count: u32,
    samples: [i64; 2],
}

/// The number of CPU cycles that a buffer of `sample` samples lasts at
/// DAC rate `dac_rate`.
pub open spec fn dma_duration(sample: i64, dac_rate: u32) -> int {
    (125000000 * sample) / (DAC_FREQUENCY as int / (dac_rate + 1))
}

/// The value read back from AI_STATUS.
pub open spec fn audio_status(dma_enabled: bool, dma_count: u32) -> u32 {
    let v0: u32 = 0x0110_0000;
    let v1: u32 = if dma_enabled { v0 | 0x0200_0000 } else { v0 };
    let v2: u32 = if dma_count >= 1 { v1 | 0x4000_0000 } else { v1 };
    if dma_count >= 2 { v2 | 0x8000_0001 } else { v2 }
}

impl View for AudioInterface {
    type V = AudioView;

    closed spec fn view(&self) -> AudioView {
        AudioView {
            dram_addr: self.dram_addr,
            length: self.length,
            dma_enabled: self.dma_enabled,
            dac_rate: self.dac_rate,
            bit_rate: self.bit_rate,
            counter: self.counter,
            dma_count: self.dma_count,
            samples: self.samples@,
        }
    }
}

impl AudioView {
    /// The bounds that the register writes keep.
    pub open spec fn wf(self) -> bool {
        &&& self.dac_rate <= 0x3fff
        &&& self.dma_count <= 2
        &&& self.samples.len() == 2
        &&& 0 <= self.samples[0] < 0x10000
        &&& 0 <= self.samples[1] < 0x10000
    }
}

/// The audio interface after `cycles` cycles: the counter runs down, and
/// when it runs out the buffer in play ends; the next one, if queued,
/// starts, and the AI interrupt is raised. `o` and `oi` (the interrupt
/// state) before, `n` and `ni` after.
pub open spec fn ai_step_post(o: AudioView, n: AudioView, oi: RcpInterrupt, ni: RcpInterrupt, cycles: u64) -> bool {
    let c = o.counter - (cycles as i64);
    if c < 0 && o.dma_count > 0 && o.dma_count - 1 > 0 {
        &&& n == AudioView {
            counter: dma_duration(o.samples[1], o.dac_rate) as i64,
            dma_count: (o.dma_count - 1) as u32,
            samples: seq![o.samples[1], o.samples[1]],
            ..o
        }
        &&& ni.raised_from(oi, RcpIntType::AI)
    } else if c < 0 && o.dma_count > 0 {
        &&& n == AudioView { counter: c as i64, dma_count: (o.dma_count - 1) as u32, ..o }
        &&& ni == oi
    } else {
        &&& n == AudioView { counter: c as i64, ..o }
        &&& ni == oi
    }
}

/// The value that a read of AI_LENGTH (0x04) or AI_STATUS (0x0c) gives.
pub open spec fn ai_read_value(v: AudioView, address: u32) -> u32 {
    if address == 0x04 {
        if v.dma_count > 0 {
            v.length
        } else {
            0
        }
    } else {
        audio_status(v.dma_enabled, v.dma_count)
    }
}

/// The audio interface after a write of `value` at `address`: `o` and
/// `oi` (the interrupt state) before, `n` and `ni` after.
pub open spec fn ai_write_post(
    o: AudioView,
    n: AudioView,
    oi: RcpInterrupt,
    ni: RcpInterrupt,
    address: u32,
    value: Masked,
) -> bool {
    let merged = |prev: u32| spec_apply(value.value, value.mask, prev);
    if address == 0x00 {
        n == AudioView { dram_addr: merged(o.dram_addr) & 0x00ff_fff8, ..o }
            && ni == oi
    } else if address == 0x04 {
        let length = merged(o.length) & 0x0003_fff8;
        if o.dma_count == 0 {
            &&& n == AudioView {
                length,
                dma_count: 1,
                samples: o.samples.update(0, (length / 4) as i64),
                counter: dma_duration((length / 4) as i64, o.dac_rate) as i64,
                ..o
            }
            &&& ni.raised_from(oi, RcpIntType::AI)
        } else if o.dma_count == 1 {
            &&& n == AudioView {
                length,
                dma_count: 2,
                samples: o.samples.update(1, (length / 4) as i64),
                ..o
            }
            &&& ni == oi
        } else {
            n == AudioView { length, ..o } && ni == oi
        }
    } else if address == 0x08 {
        n == AudioView { dma_enabled: value.value & value.mask & 1 != 0, ..o }
            && ni == oi
    } else if address == 0x0c {
        n == o && ni.cleared_from(oi, RcpIntType::AI)
    } else if address == 0x10 {
        n == AudioView { dac_rate: merged(o.dac_rate) & 0x3fff, ..o }
            && ni == oi
    } else {
        n == AudioView { bit_rate: merged(o.bit_rate) & 0x0f, ..o }
            && ni == oi
    }
}

impl AudioInterface {
    pub fn new() -> (r: Self)
        ensures
            r@ == ai_reset(),
            r@.wf(),
    {
        let r = AudioInterface {
            dram_addr: 0,
            length: 0,
            dma_enabled: false,
            dac_rate: 0,
            bit_rate: 0,
            counter: 0,
            dma_count: 0,
            samples: [0;2],
        };
        assert(r.samples@ =~= seq![0i64, 0i64]);
        r
    }

    /// Advances the DAC by `cycles` CPU cycles. When the current buffer has
    /// finished playing, the queue advances and, if another buffer is
    /// queued, its playback starts and the AI interrupt is raised.
    pub fn step(&mut self, rcp_int: &mut RcpInterrupt, cycles: u64)
        requires
            old(self)@.wf(),
            i64::MIN <= old(self)@.counter - (cycles as i64) <= i64::MAX,
        ensures
            final(self)@.wf(),
            ai_step_post(old(self)@, final(self)@, *old(rcp_int), *final(rcp_int), cycles),
    {
        self.counter = self.counter - (cycles as i64);

        if self.counter < 0 && self.dma_count > 0 {
            self.dma_count = self.dma_count - 1;

            if self.dma_count > 0 {
                self.samples[0] = self.samples[1];
                self.start_dma(rcp_int);
                assert(self.samples@ =~= seq![old(self).samples@[1], old(self).samples@[1]]);
            }
        }
    }

    fn start_dma(&mut self, rcp_int: &mut RcpInterrupt)
        requires
            old(self)@.wf(),
        ensures
            final(self)@ == (AudioView {
                counter: dma_duration(old(self)@.samples[0], old(self)@.dac_rate) as i64,
                ..old(self)@
            }),
            final(rcp_int).raised_from(*old(rcp_int), RcpIntType::AI),
    {
        let divisor: u64 = self.dac_rate as u64 + 1;
        let frequency: u64 = 48681812u64 / divisor;
        assert(frequency >= 2971) by (nonlinear_arith)
            requires
                frequency == 48681812int / (divisor as int),
                1 <= divisor <= 0x4000,
        ;
        let sample: u64 = self.samples[0] as u64;
        let product: u64 = 125000000u64 * sample;
        let counter: u64 = product / frequency;
        assert(counter <= product) by (nonlinear_arith)
            requires
                counter == (product as int) / (frequency as int),
                frequency >= 1,
        ;
        self.counter = counter as i64;
        rcp_int.raise(RcpIntType::AI);
    }

    /// Reads AI_LENGTH (address 0x04) or AI_STATUS (address 0x0c).
    pub fn read_register(&self, address: u32) -> (r: u32)
        requires
            address == 0x04 || address == 0x0c,
        ensures
            address == 0x04 ==> r == (if self@.dma_count > 0 {
                self@.length
            } else {
                0
            }),
            address == 0x0c ==> r == audio_status(self@.dma_enabled, self@.dma_count),
            r == ai_read_value(self@, address),
    {
        if address == 0x04 {
            if self.dma_count > 0 {
                self.length
            } else {
                0
            }
        } else {
            let mut value: u32 = 0x0110_0000;

            if self.dma_enabled {
                value = value | 0x0200_0000;
            }
            if self.dma_count >= 1 {
                value = value | 0x4000_0000;

                if self.dma_count >= 2 {
                    value = value | 0x8000_0001;
                }
            }
            value
        }
    }

    /// Writes one of the registers AI_DRAM_ADDR (0x00), AI_LENGTH (0x04),
    /// AI_CONTROL (0x08), AI_STATUS (0x0c), AI_DACRATE (0x10) or
    /// AI_BITRATE (0x14). A write to AI_LENGTH queues a buffer when fewer
    /// than two are queued, and starts its playback when the queue was
    /// empty; a write to AI_STATUS acknowledges the AI interrupt.
    pub fn write_register(&mut self, rcp_int: &mut RcpInterrupt, address: u32, value: Masked)
        requires
            old(self)@.wf(),
            address == 0x00 || address == 0x04 || address == 0x08 || address == 0x0c || address
                == 0x10 || address == 0x14,
        ensures
            final(self)@.wf(),
            ai_write_post(old(self)@, final(self)@, *old(rcp_int), *final(rcp_int), address, value),
    {
        if address == 0x00 {
            self.dram_addr = value.apply(self.dram_addr) & 0x00ff_fff8;
        } else if address == 0x04 {
            let p = value.apply(self.length);
            self.length = p & 0x0003_fff8;
            proof {
                crate::bits::lemma_mask_bounds();
            }
            assert(p & 0x0003_fff8u32 <= 0x3fff8);

            if self.dma_count < 2 {
                self.samples[self.dma_count as usize] = (self.length / 4) as i64;

                self.dma_count = self.dma_count + 1;

                if self.dma_count < 2 {
                    self.start_dma(rcp_int);
                }
            }
        } else if address == 0x08 {
            self.dma_enabled = (value.get() & 0x01) != 0;
        } else if address == 0x0c {
            rcp_int.clear(RcpIntType::AI);
        } else if address == 0x10 {
            let p = value.apply(self.dac_rate);
            self.dac_rate = p & 0x3fff;
            proof {
                crate::bits::lemma_mask_bounds();
            }
            assert(p & 0x3fffu32 <= 0x3fff);
        } else {
            self.bit_rate = value.apply(self.bit_rate) & 0x0f;
        }
    }
}

} // verus!
