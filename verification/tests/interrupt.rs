use utopia::interrupt::{CpuIntType, CpuInterrupt, RcpIntType, RcpInterrupt};
use utopia::memory::Masked;
use utopia::mips_interface::MipsInterface;

#[test]
fn cpu_interrupt_raise_and_clear() {
    let mut cpu = CpuInterrupt::new();
    assert_eq!(cpu.poll(), 0);
    cpu.raise(CpuIntType::Rcp);
    assert_eq!(cpu.poll(), 0x04);
    cpu.raise(CpuIntType::Pif);
    assert_eq!(cpu.poll(), 0x14);
    cpu.clear(CpuIntType::Rcp);
    assert_eq!(cpu.poll(), 0x10);
}

#[test]
fn rcp_interrupt_reaches_cpu_only_when_unmasked() {
    let mut rcp = RcpInterrupt::new(CpuInterrupt::new());
    rcp.raise(RcpIntType::SI);
    assert!(rcp.has(RcpIntType::SI));
    assert_eq!(rcp.poll(), 0x02);
    assert_eq!(rcp.cpu_interrupt().poll() & 0x04, 0);
    rcp.set_mask(0x02);
    assert_eq!(rcp.cpu_interrupt().poll() & 0x04, 0x04);
    rcp.clear(RcpIntType::SI);
    assert!(!rcp.has(RcpIntType::SI));
    assert_eq!(rcp.cpu_interrupt().poll() & 0x04, 0);
}

#[test]
fn raising_twice_is_raising_once() {
    let mut a = RcpInterrupt::new(CpuInterrupt::new());
    a.set_mask(0x3f);
    a.raise(RcpIntType::VI);
    let once = (a.poll(), a.cpu_interrupt().poll());
    a.raise(RcpIntType::VI);
    assert_eq!((a.poll(), a.cpu_interrupt().poll()), once);
}

#[test]
fn raise_then_clear_restores_status() {
    let mut a = RcpInterrupt::new(CpuInterrupt::new());
    a.set_mask(0x3f);
    a.raise(RcpIntType::AI);
    a.raise(RcpIntType::DP);
    a.clear(RcpIntType::DP);
    assert_eq!(a.poll(), 0x04);
    assert_eq!(a.cpu_interrupt().poll(), 0x04);
}

#[test]
fn mi_mask_write_sets_and_clears_pairs() {
    let mut rcp = RcpInterrupt::new(CpuInterrupt::new());
    let mut mi = MipsInterface::new();
    // set SP (bit 1 of the input) and DP (bit 11)
    mi.write_u32(&mut rcp, 0x0c, Masked::full(0x0000_0802));
    assert_eq!(rcp.mask(), 0x21);
    assert_eq!(mi.read_u32(&rcp, 0x0c), 0x21);
    // clear SP (bit 0)
    mi.write_u32(&mut rcp, 0x0c, Masked::full(0x0000_0001));
    assert_eq!(rcp.mask(), 0x20);
}

#[test]
fn mi_version_and_mode() {
    let mut rcp = RcpInterrupt::new(CpuInterrupt::new());
    let mut mi = MipsInterface::new();
    assert_eq!(mi.read_u32(&rcp, 0x04), 0x0202_0102);
    // init length 0x15, set init mode (bit 8)
    mi.write_u32(&mut rcp, 0x00, Masked::full(0x0000_0115));
    assert_eq!(mi.read_u32(&rcp, 0x00), 0x95);
    // clear init mode (bit 7) keeps the length from the write
    mi.write_u32(&mut rcp, 0x00, Masked::full(0x0000_0095));
    assert_eq!(mi.read_u32(&rcp, 0x00), 0x15);
}

#[test]
fn mi_mode_write_clears_dp_interrupt() {
    let mut rcp = RcpInterrupt::new(CpuInterrupt::new());
    let mut mi = MipsInterface::new();
    rcp.raise(RcpIntType::DP);
    assert!(rcp.has(RcpIntType::DP));
    mi.write_u32(&mut rcp, 0x00, Masked::full(0x0800));
    assert!(!rcp.has(RcpIntType::DP));
    assert_eq!(mi.read_u32(&rcp, 0x08), 0);
}

#[test]
fn masked_write_merges() {
    let m = Masked::new(0xaabb_ccdd, 0x0000_ffff);
    assert_eq!(m.get(), 0x0000_ccdd);
    assert_eq!(m.apply(0x1122_3344), 0x1122_ccdd);
    assert_eq!(m.apply(m.apply(0x1122_3344)), 0x1122_ccdd);
    assert_eq!(Masked::full(5).apply(0xffff_ffff), 5);
    assert_eq!(Masked::new(5, 0).apply(7), 7);
}
