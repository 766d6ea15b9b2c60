use utopia::audio::AudioInterface;
use utopia::dma::DmaRequest;
use utopia::interrupt::{CpuInterrupt, RcpIntType, RcpInterrupt};
use utopia::memory::Masked;
use utopia::peripheral::PeripheralInterface;
use utopia::rdram::Rdram;

#[test]
fn audio_dma_queue() {
    let mut rcp = RcpInterrupt::new(CpuInterrupt::new());
    let mut ai = AudioInterface::new();
    assert_eq!(ai.read_register(0x0c), 0x0110_0000);
    ai.write_register(&mut rcp, 0x10, Masked::full(1));
    ai.write_register(&mut rcp, 0x04, Masked::full(0x1000));
    assert!(rcp.has(RcpIntType::AI));
    assert_eq!(ai.read_register(0x04), 0x1000);
    assert_eq!(ai.read_register(0x0c), 0x4110_0000);
    ai.write_register(&mut rcp, 0x0c, Masked::full(0));
    assert!(!rcp.has(RcpIntType::AI));
    ai.write_register(&mut rcp, 0x04, Masked::full(0x2000));
    assert_eq!(ai.read_register(0x0c), 0xc110_0001);
    // the first buffer plays for 125 MHz * 1024 samples / (48681812 / 2) cycles
    ai.step(&mut rcp, 5258);
    assert_eq!(ai.read_register(0x0c), 0xc110_0001);
    ai.step(&mut rcp, 1);
    assert_eq!(ai.read_register(0x0c), 0x4110_0000);
    assert!(rcp.has(RcpIntType::AI));
    ai.step(&mut rcp, 10518);
    assert_eq!(ai.read_register(0x0c), 0x0110_0000);
    assert_eq!(ai.read_register(0x04), 0);
}

#[test]
fn audio_registers_mask_their_values() {
    let mut rcp = RcpInterrupt::new(CpuInterrupt::new());
    let mut ai = AudioInterface::new();
    ai.write_register(&mut rcp, 0x08, Masked::full(1));
    assert_eq!(ai.read_register(0x0c), 0x0310_0000);
    ai.write_register(&mut rcp, 0x04, Masked::full(0xffff_ffff));
    assert_eq!(ai.read_register(0x04), 0x0003_fff8);
}

#[test]
fn pi_dma_requests() {
    let mut rcp = RcpInterrupt::new(CpuInterrupt::new());
    let mut pi = PeripheralInterface::new();
    assert_eq!(pi.read_u32(&rcp, 0x08), 0x7f);
    assert_eq!(pi.read_u32(&rcp, 0x14), 64);
    assert_eq!(pi.write_u32(&mut rcp, 0x00, Masked::full(0x0010_0003)), None);
    assert_eq!(pi.write_u32(&mut rcp, 0x04, Masked::full(0x1000_0001)), None);
    assert_eq!(
        pi.write_u32(&mut rcp, 0x0c, Masked::full(0xff00_0fff)),
        Some(DmaRequest { src: 0x1000_0000, dst: 0x0010_0002, len: 0x0fff, mode: false }),
    );
    assert_eq!(
        pi.write_u32(&mut rcp, 0x08, Masked::full(0x7f)),
        Some(DmaRequest { src: 0x1000_0000, dst: 0x0010_0002, len: 0x7f, mode: true }),
    );
}

#[test]
fn pi_status_reports_and_clears_interrupt() {
    let mut rcp = RcpInterrupt::new(CpuInterrupt::new());
    let mut pi = PeripheralInterface::new();
    assert_eq!(pi.read_u32(&rcp, 0x10), 0);
    pi.finish_dma(&mut rcp);
    assert_eq!(pi.read_u32(&rcp, 0x10), 0x08);
    pi.write_u32(&mut rcp, 0x10, Masked::full(0x02));
    assert_eq!(pi.read_u32(&rcp, 0x10), 0);
}

#[test]
fn rdram_is_eight_megabytes() {
    let mut rdram = Rdram::new();
    assert_eq!(rdram.data().len(), 8 * 1024 * 1024);
    rdram.data_mut()[5] = 9;
    assert_eq!(rdram.data()[5], 9);
}

