use utopia::dma::DmaRequest;
use utopia::interrupt::{CpuInterrupt, RcpInterrupt};
use utopia::memory::Masked;
use utopia::rdp::{CommandRegisters, CommandRegistersMut};
use utopia::rsp::cp0::Cp0;
use utopia::rsp::cp0::registers::{RdpStatus, Registers, RspStatus, DP_XBUS};
use utopia::rsp::cp2::compute::Compute;

#[test]
fn rsp_status_fields() {
    let mut status = RspStatus::new();
    assert_eq!(status.into_bits(), 0);
    status.set_halted(true);
    status.set_intbreak(true);
    status.set_signal(0xa5);
    assert!(status.halted());
    assert!(status.intbreak());
    assert!(!status.broke());
    assert_eq!(status.signal(), 0xa5);
    assert_eq!(status.into_bits(), 0x0001 | 0x0040 | (0xa5 << 7));
    status.set_halted(false);
    assert_eq!(status.into_bits(), 0x0040 | (0xa5 << 7));
    let status = RspStatus::from_bits(0x0000_002c);
    assert!(status.dma_busy());
    assert!(status.dma_full());
    assert!(status.sstep());
    assert!(!status.io_busy());
}

#[test]
fn rdp_status_fields() {
    let mut status = RdpStatus::new();
    status.set_flag(DP_XBUS, true);
    assert!(status.xbus());
    assert!(!status.freeze());
    let status = RdpStatus::from_bits(0x0780);
    assert!(status.ready());
    assert!(status.dma_busy());
    assert!(status.end_pending());
    assert!(status.start_pending());
    assert!(!status.buffer_busy());
    assert!(!status.pipe_busy());
    assert!(!status.tmem_busy());
    assert!(!status.start_gclk());
    assert!(!status.flush());
}

#[test]
fn compute_word_fields() {
    // VADD $v3, $v1, $v2[e5]
    let word = (5u32 << 21) | (2 << 16) | (1 << 11) | (3 << 6) | 0x10;
    let op = Compute::from(word);
    assert_eq!(op.opcode(), 0x10);
    assert_eq!(op.vd(), 3);
    assert_eq!(op.vs(), 1);
    assert_eq!(op.vt(), 2);
    assert_eq!(op.element(), 5);
    assert_eq!(op.into_bits(), word);
}

#[test]
fn command_registers_read_dp_registers() {
    let mut regs = Registers::new();
    let mut rcp = RcpInterrupt::new(CpuInterrupt::new());
    regs.set(&mut rcp, 8, Masked::full(0x0010_0010));
    let command = CommandRegisters::new(&regs);
    assert_eq!(command.read_register(0), 0x0010_0010);
    assert_eq!(command.read_register(4), 0);
    assert_eq!(command.read_register(12) & 0x0400, 0x0400);
}

#[test]
fn command_register_end_write_hands_out_dma() {
    let mut regs = Registers::new();
    let mut rcp = RcpInterrupt::new(CpuInterrupt::new());
    let mut dma = None;
    {
        let mut command = CommandRegistersMut::new(&mut regs, &mut dma);
        command.write_register(&mut rcp, 0, Masked::full(0x0000_1000));
        command.write_register(&mut rcp, 4, Masked::full(0x0000_1040));
        assert_eq!(command.read_register(8), 0x0000_1040);
    }
    assert_eq!(dma, Some(DmaRequest { src: 0x1000, dst: 0, len: 0x40, mode: false }));
    {
        let mut command = CommandRegistersMut::new(&mut regs, &mut dma);
        // an empty buffer requests nothing
        command.write_register(&mut rcp, 4, Masked::full(0x0000_1040));
    }
    assert_eq!(dma, None);
}

fn rsp_core() -> utopia::mips::Core {
    let mut regs = [0u64; 32];
    regs[5] = 0x0000_0000_0000_0105; // clear halt (0x01) and broke (0x04), set intbreak (0x100)
    regs[6] = 0x0000_0000_0000_2000;
    utopia::mips::Core::new(
        utopia::mips::CoreConfig { pc_mask: 0xfff, enable_64_bit: false },
        utopia::mips::InitialState { pc: 0, regs },
    )
}

#[test]
fn cop0_moves_reach_the_registers() {
    let mut core = rsp_core();
    let mut cp0 = Cp0::new();
    let mut rcp = RcpInterrupt::new(CpuInterrupt::new());
    // MFC0 $1, SP_STATUS: the reset status is halted
    Cp0::mfc0(&mut core, &mut cp0, (1 << 16) | (4 << 11));
    assert_eq!(core.getw(1), 0x0001);
    // MTC0 $6, SP_DMA_SPADDR
    Cp0::mtc0(&core, &mut cp0, &mut rcp, (6 << 16) | (0 << 11));
    Cp0::mfc0(&mut core, &mut cp0, (2 << 16) | (0 << 11));
    assert_eq!(core.getw(2), 0x2000);
    // MTC0 $5, SP_STATUS clears the halt
    Cp0::mtc0(&core, &mut cp0, &mut rcp, (5 << 16) | (4 << 11));
    assert!(cp0.regs().is_running());
    // MFC0 $3, SP_SEMAPHORE reads zero and sets it
    Cp0::mfc0(&mut core, &mut cp0, (3 << 16) | (7 << 11));
    assert_eq!(core.getw(3), 0);
    Cp0::mfc0(&mut core, &mut cp0, (3 << 16) | (7 << 11));
    assert_eq!(core.getw(3), 1);
    // BREAK halts again
    Cp0::break_(&mut cp0, &mut rcp);
    assert!(!cp0.regs().is_running());
}

#[test]
fn rsp_memory_and_registers() {
    let mut rom = vec![0u8; 4096 + 16];
    rom[0..4].copy_from_slice(&[0x12, 0x34, 0x56, 0x78]);
    rom[4096] = 0xff; // beyond DMEM: not copied
    let mut rsp = utopia::rsp::Rsp::new(&rom);
    let mut rcp = RcpInterrupt::new(CpuInterrupt::new());
    assert_eq!(rsp.mem().len(), 8192);
    assert_eq!(rsp.read(0), 0x1234_5678);
    // mirrored every 8 KiB
    assert_eq!(rsp.read(0x2000), 0x1234_5678);
    assert_eq!(rsp.read(0x1000), 0);
    rsp.write(0x1ffc, 0xdead_beef);
    assert_eq!(rsp.read(0x3ffc), 0xdead_beef);
    assert_eq!(rsp.mem()[0x1ffc], 0xde);
    // SP_STATUS reads halted after reset
    assert_eq!(rsp.read_register(0x0004_0010), 1);
    // SP_PC is word aligned within IMEM
    assert_eq!(rsp.write_register(&mut rcp, 0x0008_0000, Masked::full(0x1234_5677)), None);
    assert_eq!(rsp.read_register(0x0008_0000), 0x674);
    // a DMA length write hands out the request
    assert_eq!(rsp.write_register(&mut rcp, 0x0004_0000, Masked::full(0x0000_1000)), None);
    assert_eq!(rsp.write_register(&mut rcp, 0x0004_0004, Masked::full(0x0020_0000)), None);
    assert_eq!(
        rsp.write_register(&mut rcp, 0x0004_0008, Masked::full(0x7)),
        Some(DmaRequest { src: 0x1000, dst: 0x0020_0000, len: 7, mode: true }),
    );
    assert_eq!(rsp.regs().get_command(8), 0);
    // the semaphore is taken by reading it
    assert_eq!(rsp.read_register(0x0004_001c), 0);
    assert_eq!(rsp.read_register(0x0004_001c), 1);
    rsp.regs_mut().halt();
    assert!(!rsp.regs().is_running());
}
