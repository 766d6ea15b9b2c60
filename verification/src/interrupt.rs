//! CPU and RCP interrupt lines.
//!
//! The RCP collects interrupts from its six units (SP, SI, AI, VI, PI, DP)
//! and raises the CPU's RCP interrupt line whenever one of them is both
//! pending and enabled in the RCP interrupt mask.

use vstd::prelude::*;

verus! {

/// Interrupt sources wired to the CPU.
#[derive(Copy, Clone, Debug, PartialEq, Eq, Structural)]
pub enum CpuIntType {
    Rcp,
    Pif,
}

/// Interrupt sources inside the RCP.
#[derive(Copy, Clone, Debug, PartialEq, Eq, Structural)]
pub enum RcpIntType {
    SP,
    SI,
    AI,
    VI,
    PI,
    DP,
}

impl CpuIntType {
    /// The bit that this source occupies in the CPU interrupt status.
    pub open spec fn spec_bit(self) -> u8 {
        match self {
            CpuIntType::Rcp => 0x04,
            CpuIntType::Pif => 0x10,
        }
    }

    pub fn bit(self) -> (b: u8)
        ensures
            b == self.spec_bit(),
    {
        match self {
            CpuIntType::Rcp => 0x04,
            CpuIntType::Pif => 0x10,
        }
    }
}

impl RcpIntType {
    /// The bit that this source occupies in the RCP interrupt status and mask.
    pub open spec fn spec_bit(self) -> u8 {
        match self {
            RcpIntType::SP => 0x01,
            RcpIntType::SI => 0x02,
            RcpIntType::AI => 0x04,
            RcpIntType::VI => 0x08,
            RcpIntType::PI => 0x10,
            RcpIntType::DP => 0x20,
        }
    }

    pub fn bit(self) -> (b: u8)
        ensures
            b == self.spec_bit(),
    {
        match self {
            RcpIntType::SP => 0x01,
            RcpIntType::SI => 0x02,
            RcpIntType::AI => 0x04,
            RcpIntType::VI => 0x08,
            RcpIntType::PI => 0x10,
            RcpIntType::DP => 0x20,
        }
    }
}

/// The CPU's interrupt status byte.
pub struct CpuInterrupt {
    status: u8,
}

impl View for CpuInterrupt {
    type V = u8;

    closed spec fn view(&self) -> u8 {
        self.status
    }
}

impl CpuInterrupt {
    pub fn new() -> (r: Self)
        ensures
            r@ == 0,
    {
        CpuInterrupt { status: 0 }
    }

    pub fn poll(&self) -> (r: u8)
        ensures
            r == self@,
    {
        self.status
    }

    pub fn raise(&mut self, int_type: CpuIntType)
        ensures
            final(self)@ == old(self)@ | int_type.spec_bit(),
    {
        self.status = self.status | int_type.bit();
    }

    pub fn clear(&mut self, int_type: CpuIntType)
        ensures
            final(self)@ == old(self)@ & !int_type.spec_bit(),
    {
        self.status = self.status & !int_type.bit();
    }
}

/// The RCP interrupt controller (MI_INTR and MI_INTR_MASK), together with
/// the CPU interrupt line that it drives.
pub struct RcpInterrupt {
    cpu_interrupt: CpuInterrupt,
    mask: u8,
    status: u8,
}

/// The CPU status that results from re-evaluating the RCP line.
pub open spec fn rcp_line(cpu: u8, status: u8, mask: u8) -> u8 {
    if status & mask != 0 {
        cpu | 0x04
    } else {
        cpu & !0x04u8
    }
}

impl RcpInterrupt {
    /// Pending RCP interrupts.
    pub closed spec fn spec_status(&self) -> u8 {
        self.status
    }

    /// Enabled RCP interrupts.
    pub closed spec fn spec_mask(&self) -> u8 {
        self.mask
    }

    /// The status byte of the CPU interrupt line driven by this controller.
    pub closed spec fn spec_cpu(&self) -> u8 {
        self.cpu_interrupt@
    }

    /// The CPU's RCP line is raised exactly when an enabled interrupt is pending.
    pub closed spec fn wf(&self) -> bool {
        ((self.cpu_interrupt@ & 0x04) != 0) == ((self.status & self.mask) != 0)
    }

    /// `self` is `old` after raising `int_type`.
    pub open spec fn raised_from(self, old: Self, int_type: RcpIntType) -> bool {
        &&& self.wf()
        &&& self.spec_mask() == old.spec_mask()
        &&& self.spec_status() == old.spec_status() | int_type.spec_bit()
        &&& self.spec_cpu() == rcp_line(old.spec_cpu(), self.spec_status(), old.spec_mask())
    }

    /// `self` is `old` after clearing `int_type`.
    pub open spec fn cleared_from(self, old: Self, int_type: RcpIntType) -> bool {
        &&& self.wf()
        &&& self.spec_mask() == old.spec_mask()
        &&& self.spec_status() == old.spec_status() & !int_type.spec_bit()
        &&& self.spec_cpu() == rcp_line(old.spec_cpu(), self.spec_status(), old.spec_mask())
    }

    /// Whether `int_type` is pending.
    pub open spec fn spec_has(self, int_type: RcpIntType) -> bool {
        self.spec_status() & int_type.spec_bit() != 0
    }

    pub fn new(cpu_interrupt: CpuInterrupt) -> (r: Self)
        requires
            cpu_interrupt@ & 0x04 == 0,
        ensures
            r.wf(),
            r.spec_status() == 0,
            r.spec_mask() == 0,
            r.spec_cpu() == cpu_interrupt@,
    {
        let r = RcpInterrupt { cpu_interrupt, mask: 0, status: 0 };
        proof {
            crate::bits::lemma_byte_bits();
        }
        r
    }

    /// The CPU interrupt line driven by this controller.
    pub fn cpu_interrupt(&self) -> (r: &CpuInterrupt)
        ensures
            r@ == self.spec_cpu(),
    {
        &self.cpu_interrupt
    }

    pub fn poll(&self) -> (r: u8)
        ensures
            r == self.spec_status(),
    {
        self.status
    }

    pub fn mask(&self) -> (r: u8)
        ensures
            r == self.spec_mask(),
    {
        self.mask
    }

    pub fn has(&self, int_type: RcpIntType) -> (r: bool)
        ensures
            r == self.spec_has(int_type),
    {
        (self.status & int_type.bit()) != 0
    }

    pub fn set_mask(&mut self, mask: u8)
        ensures
            final(self).wf(),
            final(self).spec_mask() == mask,
            final(self).spec_status() == old(self).spec_status(),
            final(self).spec_cpu() == rcp_line(old(self).spec_cpu(), old(self).spec_status(), mask),
    {
        self.mask = mask;
        self.update();
    }

    pub fn raise(&mut self, int_type: RcpIntType)
        ensures
            final(self).raised_from(*old(self), int_type),
    {
        self.status = self.status | int_type.bit();
        self.update();
    }

    pub fn clear(&mut self, int_type: RcpIntType)
        ensures
            final(self).cleared_from(*old(self), int_type),
    {
        self.status = self.status & !int_type.bit();
        self.update();
    }

    fn update(&mut self)
        ensures
            final(self).wf(),
            final(self).mask == old(self).mask,
            final(self).status == old(self).status,
            final(self).cpu_interrupt@ == rcp_line(
                old(self).cpu_interrupt@,
                old(self).status,
                old(self).mask,
            ),
    {
        let active = self.status & self.mask;
        if active != 0 {
            self.cpu_interrupt.raise(CpuIntType::Rcp);
            proof {
                crate::bits::lemma_byte_bits();
            }
        } else {
            self.cpu_interrupt.clear(CpuIntType::Rcp);
            proof {
                crate::bits::lemma_byte_bits();
            }
        }
    }
}

/// Raising the same source again changes nothing: two raises in a row
/// have the effect of one.
pub proof fn lemma_raise_idempotent(
    old: RcpInterrupt,
    mid: RcpInterrupt,
    new: RcpInterrupt,
    int_type: RcpIntType,
)
    requires
        mid.raised_from(old, int_type),
        new.raised_from(mid, int_type),
    ensures
        new.raised_from(old, int_type),
{
    let s = old.spec_status();
    let b = int_type.spec_bit();
    let m = old.spec_mask();
    let c = old.spec_cpu();
    crate::bits::lemma_byte_bits();
    assert((s | b) | b == s | b);
    let c1 = rcp_line(c, s | b, m);
    assert(rcp_line(c1, s | b, m) == c1) by {
        let sb = s | b;
        if sb & m != 0 {
            assert((c | 0x04u8) | 0x04u8 == c | 0x04u8);
        } else {
            assert((c & !0x04u8) & !0x04u8 == c & !0x04u8);
        }
    }
}

/// A raised interrupt is pending and a cleared one is not; raising or
/// clearing one source leaves every other source as it was.
pub proof fn lemma_raise_clear(
    old: RcpInterrupt,
    new: RcpInterrupt,
    int_type: RcpIntType,
    other: RcpIntType,
)
    ensures
        new.raised_from(old, int_type) ==> new.spec_has(int_type),
        new.cleared_from(old, int_type) ==> !new.spec_has(int_type),
        new.raised_from(old, int_type) && other != int_type ==> new.spec_has(other) == old.spec_has(
            other,
        ),
        new.cleared_from(old, int_type) && other != int_type ==> new.spec_has(other)
            == old.spec_has(other),
{
    let s = old.spec_status();
    let b = int_type.spec_bit();
    let o = other.spec_bit();
    assert(b == 1 || b == 2 || b == 4 || b == 8 || b == 16 || b == 32);
    assert(o == 1 || o == 2 || o == 4 || o == 8 || o == 16 || o == 32);
    crate::bits::lemma_byte_bits();
    assert(b != 0 ==> (s | b) & b != 0);
    assert((s & !b) & b == 0);
    if other != int_type {
        assert(o != b);
        assert(((s | b) & o != 0) == (s & o != 0));
        assert(((s & !b) & o != 0) == (s & o != 0));
    }
}

/// Only the RCP (0x04) and PIF (0x10) lines are ever set in the CPU's
/// interrupt status: none is set after reset, and raising or clearing a
/// line, or re-evaluating the RCP line, sets no other bit.
pub proof fn lemma_cpu_lines_only(status: u8, int_type: CpuIntType, rcp_status: u8, mask: u8)
    requires
        status & !0x14u8 == 0,
    ensures
        0u8 & !0x14u8 == 0,
        (status | int_type.spec_bit()) & !0x14u8 == 0,
        (status & !int_type.spec_bit()) & !0x14u8 == 0,
        rcp_line(status, rcp_status, mask) & !0x14u8 == 0,
{
    let b = int_type.spec_bit();
    assert(b == 0x04 || b == 0x10);
    assert(0u8 & !0x14u8 == 0) by (bit_vector);
    assert(forall|x: u8, y: u8|
        x & !0x14u8 == 0 && (y == 0x04u8 || y == 0x10u8) ==> #[trigger] (x | y) & !0x14u8 == 0
            && (x & !y) & !0x14u8 == 0) by (bit_vector);
    assert((status | b) & !0x14u8 == 0 && (status & !b) & !0x14u8 == 0);
    assert((status | 0x04u8) & !0x14u8 == 0 && (status & !0x04u8) & !0x14u8 == 0);
}

/// Only the six RCP sources' bits (0x3f) are ever set in the RCP interrupt
/// status: none is set after reset, raising or clearing a source sets no
/// other bit, and changing the mask leaves the status as it is.
pub proof fn lemma_rcp_status_bits(status: u8, int_type: RcpIntType)
    requires
        status & !0x3fu8 == 0,
    ensures
        0u8 & !0x3fu8 == 0,
        (status | int_type.spec_bit()) & !0x3fu8 == 0,
        (status & !int_type.spec_bit()) & !0x3fu8 == 0,
{
    crate::bits::lemma_byte_bits();
    let b = int_type.spec_bit();
    assert(b <= 0x3f);
    assert(((status | b) & !0x3fu8) == 0 && ((status & !b) & !0x3fu8) == 0);
}

} // verus!
