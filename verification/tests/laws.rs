use utopia::interrupt::{CpuIntType, CpuInterrupt, RcpIntType, RcpInterrupt};
use utopia::memory::Masked;
use utopia::rdp::engine::target::{OutputFormat, Target};
use utopia::rsp::cp0::registers::Registers;
use utopia::serial::pif::crc;
use utopia::video::decode_rgba16;

#[test]
fn crc_of_xor_is_xor_of_crcs() {
    let a: Vec<u8> = (0..32u8).map(|i| i.wrapping_mul(37).wrapping_add(5)).collect();
    let b: Vec<u8> = (0..32u8).map(|i| i.wrapping_mul(11) ^ 0xa5).collect();
    let x: Vec<u8> = a.iter().zip(b.iter()).map(|(p, q)| p ^ q).collect();
    assert_eq!(crc(&x), crc(&a) ^ crc(&b));
}

#[test]
fn rgba16_copy_writes_back_decoded_pixels() {
    let source: [u8; 6] = [0xf8, 0x3f, 0x07, 0xc1, 0x12, 0x34];
    let mut pixels: Vec<u8> = Vec::new();
    for pair in source.chunks(2) {
        pixels.extend_from_slice(&decode_rgba16(pair));
    }
    let mut target = Target::new();
    target.set_color_image(0x10, 4, OutputFormat::Rgba16);
    let mut rdram = vec![0xeeu8; 0x20];
    target.copy_to_rdram(&mut rdram, &pixels);
    assert_eq!(&rdram[0x10..0x16], &source);
    assert_eq!(rdram[0x0f], 0xee);
    assert_eq!(rdram[0x16], 0xee);
}

#[test]
fn cpu_status_holds_only_the_two_lines() {
    let mut cpu = CpuInterrupt::new();
    cpu.raise(CpuIntType::Pif);
    cpu.raise(CpuIntType::Rcp);
    assert_eq!(cpu.poll() & !0x14, 0);
    assert_eq!(cpu.poll(), 0x14);
    cpu.clear(CpuIntType::Pif);
    assert_eq!(cpu.poll(), 0x04);
}

#[test]
fn halted_rsp_is_not_running() {
    let mut rcp = RcpInterrupt::new(CpuInterrupt::new());
    let mut regs = Registers::new();
    assert!(!regs.is_running());
    // clear the halt: the RSP runs
    regs.set(&mut rcp, 4, Masked { value: 0x01, mask: 0xffff_ffff });
    assert!(regs.is_running());
    regs.halt();
    assert!(!regs.is_running());
    assert_eq!(regs.get(4) & 1, 1);
    assert!(!regs.try_restart(&rcp));
    // an SP interrupt keeps it stopped too
    regs.set(&mut rcp, 4, Masked { value: 0x11, mask: 0xffff_ffff });
    assert!(rcp.has(RcpIntType::SP));
    assert!(!regs.is_running());
}

#[test]
fn pif_reads_every_width() {
    let mut pif = utopia::serial::pif::Pif::new();
    pif.write(0x7c0, 0x1234_5678);
    assert_eq!(pif.read(0x7c0), 0x1234_5678);
    assert_eq!(pif.read_u8(0x7c1), 0x34);
    assert_eq!(pif.read_u16(0x7c2), 0x5678);
    assert_eq!(pif.read(0x7c4), 0);
    assert_eq!(pif.read_u8(0), 0);
    pif.write_u64(0x7c8, 0x0102_0304_0506_0708);
    assert_eq!(pif.read_u64(0x7c8), 0x0102_0304_0506_0708);
    assert_eq!(pif.read_u16(0x7ce), 0x0708);
    pif.write_u16(0x7d0, 0xabcd);
    assert_eq!(pif.read_u8(0x7d0), 0xab);
    // the PIF ROM cannot be written
    pif.write_u16(0x10, 0xabcd);
    assert_eq!(pif.read_u16(0x10), 0);
}

#[test]
fn bus_accesses_memory_at_every_width() {
    let mut rom: Vec<u8> = (0..=255u8).cycle().take(8192).collect();
    rom[0..4].copy_from_slice(&[0x80, 0x37, 0x12, 0x40]);
    let mut bus = utopia::bus::Bus::new(rom);
    bus.write_u64(0x0000_2000, 0x1122_3344_5566_7788);
    assert_eq!(bus.read_data(0x0000_2000), 0x1122_3344);
    assert_eq!(bus.read_u16(0x0000_2006), 0x7788);
    assert_eq!(bus.read_u8(0x0000_2001), 0x22);
    bus.write_u8(0x0000_2001, 0xff);
    assert_eq!(bus.read_u64(0x0000_2000), 0x11ff_3344_5566_7788);
    // past the end of RDRAM: reads give zero, writes change nothing
    assert_eq!(bus.read_u16(0x0080_0000), 0);
    bus.write_u16(0x0080_0000, 0x1234);
    assert_eq!(bus.read_u16(0x0080_0000), 0);
    // SP memory repeats every 8 KiB; ROM; PIF RAM
    bus.write_u16(0x0400_0010, 0xbeef);
    assert_eq!(bus.read_u16(0x0400_2010), 0xbeef);
    assert_eq!(bus.read_u8(0x1000_0001), 0x37);
    assert_eq!(bus.read_u64(0x1000_0000), 0x8037_1240_0405_0607);
    bus.write_u8(0x1fc0_07c3, 0x5a);
    assert_eq!(bus.read_data(0x1fc0_07c0), 0x0000_005a);
}

#[test]
fn rcp_status_holds_only_the_six_sources() {
    let mut rcp = RcpInterrupt::new(CpuInterrupt::new());
    for source in [RcpIntType::SP, RcpIntType::SI, RcpIntType::AI, RcpIntType::VI, RcpIntType::PI, RcpIntType::DP] {
        rcp.raise(source);
    }
    assert_eq!(rcp.poll(), 0x3f);
    rcp.set_mask(0x3f);
    rcp.clear(RcpIntType::VI);
    assert_eq!(rcp.poll() & !0x3f, 0);
    assert_eq!(rcp.poll(), 0x37);
}

#[test]
fn bits_per_pixel_shifts_four() {
    let f = utopia::rdp::engine::tmem::format::TextureFormat::from((
        utopia::rdp::engine::primitive::TextureLayout::Rgba,
        2,
    ));
    assert_eq!(f.bits_per_pixel(), 16);
    let g = utopia::rdp::engine::tmem::format::TextureFormat::from((
        utopia::rdp::engine::primitive::TextureLayout::Rgba,
        5,
    ));
    assert_eq!(g.bits_per_pixel(), 128);
}
