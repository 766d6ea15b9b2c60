//! RDRAM: the main memory, its configuration registers and the RDRAM
//! Interface (RI) registers.

use crate::memory::{spec_apply, spec_write_be_u32, write_be_u32, Masked};
use vstd::prelude::*;

verus! {

pub const RDRAM_SIZE: usize = 8 * 1024 * 1024;

/// The RDRAM configuration registers (RDRAM_CONFIG .. RDRAM_DEVICE_MANUF).
pub struct Registers {
    regs: [u32; 8],
}

/// The RDRAM Interface registers (RI_MODE .. RI_WERROR).
pub struct Interface {
    regs: [u32; 8],
}

pub struct Rdram {
    data: Vec<u8>,
    registers: Registers,
    interface: Interface,
}

impl View for Registers {
    type V = Seq<u32>;

    closed spec fn view(&self) -> Seq<u32> {
        self.regs@
    }
}

impl View for Interface {
    type V = Seq<u32>;

    closed spec fn view(&self) -> Seq<u32> {
        self.regs@
    }
}

/// The value that a read of the RDRAM registers at `address` gives.
pub open spec fn rdram_regs_read(regs: Seq<u32>, address: u32) -> u32 {
    if address >= 0x0008_0000 {
        0
    } else if address & 0x3ff == 0x0c {
        regs[3] ^ 0xc0c0_c0c0
    } else {
        regs[rdram_reg_index(address)]
    }
}

/// The register that an RDRAM register address selects.
pub open spec fn rdram_reg_index(address: u32) -> int {
    ((address & 0x3ff) >> 2) as int
}

impl Registers {
    pub fn new() -> (r: Self)
        ensures
            r@ == Seq::new(8, |i: int| 0u32),
    {
        let r = Registers { regs: [0;8] };
        assert(r@ =~= Seq::new(8, |i: int| 0u32));
        r
    }

    /// Reads an RDRAM register. The broadcast area (from 0x80000) reads as
    /// zero, and some bits of RDRAM_MODE (0x0c) read back inverted.
    pub fn read_register(&self, address: u32) -> (r: u32)
        requires
            address < 0x0008_0000 ==> rdram_reg_index(address) < 8,
        ensures
            address >= 0x0008_0000 ==> r == 0,
            address < 0x0008_0000 && address & 0x3ff == 0x0c ==> r == self@[3] ^ 0xc0c0_c0c0,
            address < 0x0008_0000 && address & 0x3ff != 0x0c ==> r
                == self@[rdram_reg_index(address)],
            r == rdram_regs_read(self@, address),
    {
        if address >= 0x0008_0000 {
            return 0;
        }
        let address = address & 0x0000_03ff;
        let mut value = self.regs[(address >> 2) as usize];
        if address == 0x000c {
            proof {
                crate::bits::lemma_flag_bits();
            }
            value = value ^ 0xc0c0_c0c0;
        }
        value
    }

    pub fn write_register(&mut self, address: u32, value: Masked)
        requires
            rdram_reg_index(address) < 8,
        ensures
            final(self)@ == old(self)@.update(
                rdram_reg_index(address),
                spec_apply(value.value, value.mask, old(self)@[rdram_reg_index(address)]),
            ),
    {
        let index = ((address & 0x0000_03ff) >> 2) as usize;
        self.regs[index] = value.apply(self.regs[index]);
    }
}

impl Interface {
    pub fn new() -> (r: Self)
        ensures
            r@ == seq![0u32, 0, 0, 0x14, 0, 0, 0, 0],
    {
        let mut regs: [u32; 8] = [0;8];
        regs[3] = 0x14;
        let r = Interface { regs };
        assert(r@ =~= seq![0u32, 0, 0, 0x14, 0, 0, 0, 0]);
        r
    }

    pub fn read_register(&self, address: u32) -> (r: u32)
        requires
            (address >> 2) < 8,
        ensures
            r == self@[(address >> 2) as int],
    {
        self.regs[(address >> 2) as usize]
    }

    pub fn write_register(&mut self, address: u32, value: Masked)
        requires
            (address >> 2) < 8,
        ensures
            final(self)@ == old(self)@.update(
                (address >> 2) as int,
                spec_apply(value.value, value.mask, old(self)@[(address >> 2) as int]),
            ),
    {
        let index = (address >> 2) as usize;
        self.regs[index] = value.apply(self.regs[index]);
    }
}

impl Rdram {
    pub closed spec fn spec_data(&self) -> Seq<u8> {
        self.data@
    }

    pub closed spec fn spec_registers(&self) -> Seq<u32> {
        self.registers@
    }

    pub closed spec fn spec_interface(&self) -> Seq<u32> {
        self.interface@
    }

    /// Zeroed memory, except for the word at 0x318 which holds the memory
    /// size (8 MiB) as the IPL leaves it.
    pub fn new() -> (r: Self)
        ensures
            r.spec_data() == spec_write_be_u32(
                Seq::new(RDRAM_SIZE as nat, |i: int| 0u8),
                0x318,
                0x0080_0000,
            ),
            r.spec_registers() == Seq::new(8, |i: int| 0u32),
            r.spec_interface() == seq![0u32, 0, 0, 0x14, 0, 0, 0, 0],
    {
        let mut data: Vec<u8> = vec![0u8; RDRAM_SIZE];
        assert(data@ =~= Seq::new(RDRAM_SIZE as nat, |i: int| 0u8));
        write_be_u32(&mut data, 0x318, 0x0080_0000);
        Rdram { data, registers: Registers::new(), interface: Interface::new() }
    }

    pub fn data(&self) -> (r: &Vec<u8>)
        ensures
            r@ == self.spec_data(),
    {
        &self.data
    }

    pub fn data_mut(&mut self) -> (r: &mut Vec<u8>)
        ensures
            r@ == old(self).spec_data(),
            final(self).spec_data() == final(r)@,
            final(self).spec_registers() == old(self).spec_registers(),
            final(self).spec_interface() == old(self).spec_interface(),
    {
        &mut self.data
    }

    pub fn registers(&self) -> (r: &Registers)
        ensures
            r@ == self.spec_registers(),
    {
        &self.registers
    }

    pub fn registers_mut(&mut self) -> (r: &mut Registers)
        ensures
            r@ == old(self).spec_registers(),
            final(self).spec_registers() == final(r)@,
            final(self).spec_data() == old(self).spec_data(),
            final(self).spec_interface() == old(self).spec_interface(),
    {
        &mut self.registers
    }

    pub fn interface(&self) -> (r: &Interface)
        ensures
            r@ == self.spec_interface(),
    {
        &self.interface
    }

    pub fn interface_mut(&mut self) -> (r: &mut Interface)
        ensures
            r@ == old(self).spec_interface(),
            final(self).spec_interface() == final(r)@,
            final(self).spec_data() == old(self).spec_data(),
            final(self).spec_registers() == old(self).spec_registers(),
    {
        &mut self.interface
    }
}

} // verus!
