use utopia::peripheral::PeripheralInterface;
use utopia::dma::{rsp_dma_transfer, si_dma_transfer, DmaRequest, SP_MEM_SIZE};
use utopia::interrupt::{CpuInterrupt, RcpIntType, RcpInterrupt};
use utopia::rsp::cp0::registers::Registers;
use utopia::serial::SerialInterface;

fn rdram() -> Vec<u8> {
    (0..0x1000usize).map(|i| (i * 7) as u8).collect()
}

#[test]
fn single_row_to_sp_memory() {
    let mut sp = vec![0u8; SP_MEM_SIZE];
    let mut ram = rdram();
    let mut regs = Registers::new();
    let request = DmaRequest { src: 0x0008, dst: 0x100, len: 0x0000_0007, mode: true };
    rsp_dma_transfer(&mut sp, &mut ram, &mut regs, request);
    assert_eq!(&sp[8..16], &ram[0x100..0x108]);
    assert_eq!(sp[7], 0);
    assert_eq!(sp[16], 0);
    assert_eq!(regs.get(0), 0x0010);
    assert_eq!(regs.get(1), 0x0108);
}

#[test]
fn rows_with_skip() {
    let mut sp = vec![0u8; SP_MEM_SIZE];
    let mut ram = rdram();
    let mut regs = Registers::new();
    // two rows of 8 bytes, 8 bytes skipped in RDRAM between them
    let len = (8 << 20) | (1 << 12) | 7;
    let request = DmaRequest { src: 0x1000, dst: 0x200, len, mode: true };
    rsp_dma_transfer(&mut sp, &mut ram, &mut regs, request);
    assert_eq!(&sp[0x1000..0x1008], &ram[0x200..0x208]);
    assert_eq!(&sp[0x1008..0x1010], &ram[0x210..0x218]);
    assert_eq!(regs.get(0), 0x1010);
    assert_eq!(regs.get(1), 0x220);
}

#[test]
fn sp_offset_wraps_within_bank() {
    let mut sp = vec![0u8; SP_MEM_SIZE];
    let mut ram = rdram();
    let mut regs = Registers::new();
    let request = DmaRequest { src: 0x0ff8, dst: 0x300, len: 15, mode: true };
    rsp_dma_transfer(&mut sp, &mut ram, &mut regs, request);
    assert_eq!(&sp[0xff8..0x1000], &ram[0x300..0x308]);
    assert_eq!(&sp[0..8], &ram[0x308..0x310]);
    assert_eq!(sp[0x1000], 0);
    assert_eq!(regs.get(0), 0x0008);
}

#[test]
fn sp_memory_to_rdram() {
    let mut sp: Vec<u8> = (0..SP_MEM_SIZE).map(|i| (i + 1) as u8).collect();
    let mut ram = vec![0u8; 0x1000];
    let mut regs = Registers::new();
    let request = DmaRequest { src: 0x0010, dst: 0x0404, len: 7, mode: false };
    rsp_dma_transfer(&mut sp, &mut ram, &mut regs, request);
    // RDRAM addresses are 8-byte aligned
    assert_eq!(&ram[0x400..0x408], &sp[0x10..0x18]);
    assert_eq!(ram[0x408], 0);
    assert_eq!(regs.get(1), 0x408);
}

#[test]
fn si_dma_to_pif_ram_and_back() {
    let mut si = SerialInterface::new();
    let mut rcp = RcpInterrupt::new(CpuInterrupt::new());
    let mut ram: Vec<u8> = (0..0x100usize).map(|i| i as u8).collect();
    let request = DmaRequest { src: 0x40, dst: 0x7c0, len: 64, mode: false };
    si_dma_transfer(&mut si, &mut ram, &mut rcp, request);
    assert!(rcp.has(RcpIntType::SI));
    assert_eq!(si.pif().read_u8(0x7c0), 0x40);
    assert_eq!(si.pif().read_u8(0x7ff), 0x7f);
    let mut back = vec![0u8; 0x100];
    let request = DmaRequest { src: 0x80, dst: 0x7c0, len: 64, mode: true };
    si_dma_transfer(&mut si, &mut back, &mut rcp, request);
    assert_eq!(&back[0x80..0xc0], &ram[0x40..0x80]);
    assert_eq!(back[0x7f], 0);
}

#[test]
fn si_dma_leaves_pif_rom_alone() {
    let mut si = SerialInterface::new();
    let mut rcp = RcpInterrupt::new(CpuInterrupt::new());
    let mut ram = vec![0xaau8; 0x100];
    let request = DmaRequest { src: 0, dst: 0x7a0, len: 64, mode: false };
    si_dma_transfer(&mut si, &mut ram, &mut rcp, request);
    assert_eq!(si.pif().read_u8(0x7bf), 0);
    assert_eq!(si.pif().read_u8(0x7c0), 0xaa);
    assert_eq!(si.pif().read_u8(0x7df), 0xaa);
    assert_eq!(si.pif().read_u8(0x7e0), 0);
}

#[test]
fn rdp_dma_uploads_from_dmem_or_rdram() {
    let mut rsp_mem = vec![0u8; 8192];
    rsp_mem[16..24].copy_from_slice(&0x3700_0000_0000_00ffu64.to_be_bytes());
    let mut rdram = vec![0u8; 64];
    rdram[8..16].copy_from_slice(&0x2900_0000_0000_0000u64.to_be_bytes());
    let mut rdp = utopia::rdp::Rdp::new();
    utopia::dma::rdp_dma_transfer(
        &rsp_mem,
        &rdram,
        &mut rdp,
        utopia::dma::DmaRequest { src: 16, dst: 0, len: 8, mode: true },
    );
    assert!(rdp.command_state().sync_required());
    assert_eq!(rdp.run_next(&rdram), Some(None));
    assert_eq!(rdp.command_state().target().fill_color(), 0xff);
    assert_eq!(rdp.run_next(&rdram), None);
    utopia::dma::rdp_dma_transfer(
        &rsp_mem,
        &rdram,
        &mut rdp,
        utopia::dma::DmaRequest { src: 8, dst: 0, len: 8, mode: false },
    );
    assert_eq!(rdp.run_next(&rdram), Some(None));
    assert!(rdp.command_state().interrupt());
}

#[test]
fn pi_dma_copies_cartridge_to_rdram() {
    let rom: Vec<u8> = (0..32u8).collect();
    let mut rdram = vec![0xaau8; 64];
    let mut pi = PeripheralInterface::new();
    let mut rcp = RcpInterrupt::new(CpuInterrupt::new());
    // cartridge 0x1000_0004 to RDRAM 0x10, 8 bytes (len is one less)
    utopia::dma::pi_dma_transfer(
        &rom,
        &mut rdram,
        &mut pi,
        &mut rcp,
        DmaRequest { src: 0x1000_0004, dst: 0x10, len: 7, mode: false },
    );
    assert_eq!(&rdram[0x10..0x18], &[4, 5, 6, 7, 8, 9, 10, 11]);
    assert_eq!(rdram[0x0f], 0xaa);
    assert_eq!(rdram[0x18], 0xaa);
    assert!(rcp.has(RcpIntType::PI));
    // reads past the end of the ROM give zero; writes past RDRAM are dropped
    utopia::dma::pi_dma_transfer(
        &rom,
        &mut rdram,
        &mut pi,
        &mut rcp,
        DmaRequest { src: 0x1000_001e, dst: 0x3c, len: 7, mode: false },
    );
    assert_eq!(&rdram[0x3c..0x40], &[30, 31, 0, 0]);
    // RDRAM to RDRAM, one byte after the other
    let mut rdram: Vec<u8> = (0..16u8).collect();
    utopia::dma::pi_dma_transfer(
        &rom,
        &mut rdram,
        &mut pi,
        &mut rcp,
        DmaRequest { src: 0, dst: 1, len: 3, mode: false },
    );
    assert_eq!(&rdram[0..6], &[0, 0, 0, 0, 0, 5]);
}
