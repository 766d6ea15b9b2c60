use utopia::dma::DmaRequest;
use utopia::interrupt::{CpuInterrupt, RcpIntType, RcpInterrupt};
use utopia::memory::Masked;
use utopia::rsp::cp0::registers::{DmaType, Registers};

#[test]
fn reset_state_is_halted() {
    let mut regs = Registers::new();
    let rcp = RcpInterrupt::new(CpuInterrupt::new());
    assert_eq!(regs.get(4), 0x0001);
    assert!(!regs.is_running());
    assert!(!regs.try_restart(&rcp));
    assert_eq!(regs.get(2), 0xff8);
}

#[test]
fn dma_length_write_requests_transfer() {
    let mut regs = Registers::new();
    let mut rcp = RcpInterrupt::new(CpuInterrupt::new());
    regs.set(&mut rcp, 0, Masked::full(0x0000_1000));
    regs.set(&mut rcp, 1, Masked::full(0x0020_0000));
    regs.set(&mut rcp, 2, Masked::full(0x0000_0fff));
    assert_eq!(
        regs.take_dma_type(&rcp),
        DmaType::Rsp(DmaRequest { src: 0x1000, dst: 0x0020_0000, len: 0xfff, mode: true }),
    );
    assert_eq!(regs.take_dma_type(&rcp), DmaType::Idle);
    regs.set(&mut rcp, 3, Masked::full(7));
    assert_eq!(
        regs.take_dma_type(&rcp),
        DmaType::Rsp(DmaRequest { src: 0x1000, dst: 0x0020_0000, len: 7, mode: false }),
    );
}

#[test]
fn status_write_runs_and_signals() {
    let mut regs = Registers::new();
    let mut rcp = RcpInterrupt::new(CpuInterrupt::new());
    // clear halt
    regs.set(&mut rcp, 4, Masked::full(0x0001));
    assert_eq!(regs.get(4) & 1, 0);
    assert!(regs.try_restart(&rcp));
    // set single step, then signal 0 (bit 10) and raise the SP interrupt
    regs.set(&mut rcp, 4, Masked::full(0x0040 | 0x0400 | 0x0010));
    assert!(regs.is_single_step());
    assert_eq!(regs.get(4) & 0x80, 0x80);
    assert!(rcp.has(RcpIntType::SP));
    assert!(!regs.try_restart(&rcp));
    // clear the interrupt and the signal
    regs.set(&mut rcp, 4, Masked::full(0x0008 | 0x0200));
    assert!(!rcp.has(RcpIntType::SP));
    assert_eq!(regs.get(4) & 0x80, 0);
}

#[test]
fn semaphore_is_taken_by_reading() {
    let mut regs = Registers::new();
    let mut rcp = RcpInterrupt::new(CpuInterrupt::new());
    assert_eq!(regs.get(7), 0);
    assert_eq!(regs.get(7), 1);
    regs.set(&mut rcp, 7, Masked::full(0));
    assert_eq!(regs.get(7), 0);
}

#[test]
fn break_raises_interrupt_when_enabled() {
    let mut regs = Registers::new();
    let mut rcp = RcpInterrupt::new(CpuInterrupt::new());
    regs.set(&mut rcp, 4, Masked::full(0x0001 | 0x0100));
    regs.break_(&mut rcp);
    assert_eq!(regs.get(4) & 0x43, 0x43);
    assert!(rcp.has(RcpIntType::SP));
}

#[test]
fn dp_end_write_requests_command_transfer() {
    let mut regs = Registers::new();
    let mut rcp = RcpInterrupt::new(CpuInterrupt::new());
    regs.set(&mut rcp, 8, Masked::full(0x0010_0000));
    assert_eq!(regs.get(11) & 0x0400, 0x0400);
    regs.set(&mut rcp, 9, Masked::full(0x0010_0040));
    assert_eq!(
        regs.take_dma_type(&rcp),
        DmaType::Rdp(DmaRequest { src: 0x0010_0000, dst: 0, len: 0x40, mode: false }),
    );
    assert_eq!(regs.get(10), 0x0010_0040);
    assert_eq!(regs.get(11) & 0x0400, 0);
    regs.set_dp_ready(true);
    assert_eq!(regs.get(11) & 0x80, 0x80);
    regs.clear_buffer_busy();
    assert_eq!(regs.get(11) & 0x40, 0);
}
