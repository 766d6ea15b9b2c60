use utopia::bus::{Bus, Instance, IPL3_START_ADDRESS};
use utopia::rdp::engine::Draw;

fn rom() -> Vec<u8> {
    let mut rom: Vec<u8> = (0..=255u8).cycle().take(8192).collect();
    rom[0..4].copy_from_slice(&[0x80, 0x37, 0x12, 0x40]);
    rom
}

#[test]
fn bus_reads_memory_and_registers() {
    let mut bus = Bus::new(rom());
    // the IPL leaves the memory size at 0x318
    assert_eq!(bus.read_data(0x0000_0318), 0x0080_0000);
    // reads past the end of RDRAM give zero
    assert_eq!(bus.read_data(0x03e0_0000), 0);
    // ROM, and the first 4 KiB of it in DMEM
    assert_eq!(bus.read_data(0x1000_0000), 0x8037_1240);
    assert_eq!(bus.read_data(0x1000_0004), 0x0405_0607);
    assert_eq!(bus.read_data(0x0400_0000), 0x8037_1240);
    assert_eq!(bus.read_data(0x0400_1000), 0);
    // MI_VERSION, SP_STATUS (halted), RI_MODE's reset value 0x14 at RI_CONFIG
    assert_eq!(bus.read_data(0x0430_0004), 0x0202_0102);
    assert_eq!(bus.read_data(0x0404_0010), 1);
    assert_eq!(bus.read_data(0x0470_000c), 0x14);
    // the semaphore is taken by reading it
    assert_eq!(bus.read_data(0x0404_001c), 0);
    assert_eq!(bus.read_data(0x0404_001c), 1);
}

#[test]
fn bus_writes_reach_the_devices() {
    let mut bus = Bus::new(rom());
    assert!(!bus.write_data(0x0000_0100, 0xdead_beef));
    assert_eq!(bus.read_data(0x0000_0100), 0xdead_beef);
    assert!(!bus.write_data(0x0400_0ffc, 0x1234_5678));
    assert_eq!(bus.read_data(0x0400_0ffc), 0x1234_5678);
    assert_eq!(bus.read_data(0x0400_2ffc), 0x1234_5678);
    // VI_ORIGIN
    assert!(!bus.write_data(0x0440_0004, 0x0010_0000));
    assert_eq!(bus.read_data(0x0440_0004), 0x0010_0000);
    // SP_PC
    assert!(!bus.write_data(0x0408_0000, 0x123));
    assert_eq!(bus.read_data(0x0408_0000), 0x120);
}

#[test]
fn bus_pi_dma_copies_rom_and_raises_interrupt() {
    let mut bus = Bus::new(rom());
    // enable the PI interrupt in MI_INTR_MASK (set bit 9)
    assert!(!bus.write_data(0x0430_000c, 0x0000_0200));
    assert!(!bus.write_data(0x0460_0000, 0x0000_1000)); // PI_DRAM_ADDR
    assert!(!bus.write_data(0x0460_0004, 0x1000_0004)); // PI_CART_ADDR
    assert!(!bus.write_data(0x0460_000c, 7)); // PI_WR_LEN: 8 bytes
    assert_eq!(bus.read_data(0x0000_1000), 0x0405_0607);
    assert_eq!(bus.read_data(0x0000_1004), 0x0809_0a0b);
    assert_eq!(bus.read_data(0x0000_1008), 0);
    // MI_INTR shows the PI interrupt; PI_STATUS too
    assert_eq!(bus.read_data(0x0430_0008) & 0x10, 0x10);
    assert_eq!(bus.read_data(0x0460_0010), 0x08);
    // acknowledge it
    assert!(!bus.write_data(0x0460_0010, 0x02));
    assert_eq!(bus.read_data(0x0430_0008) & 0x10, 0);
}

#[test]
fn bus_rsp_dma_reads_rdram() {
    let mut bus = Bus::new(rom());
    assert!(!bus.write_data(0x0000_2000, 0xcafe_f00d));
    assert!(!bus.write_data(0x0404_0000, 0x0000_0010)); // SP_DMA_SPADDR
    assert!(!bus.write_data(0x0404_0004, 0x0000_2000)); // SP_DMA_RAMADDR
    assert!(!bus.write_data(0x0404_0008, 0x0000_0007)); // SP_DMA_RDLEN: 8 bytes
    assert_eq!(bus.read_data(0x0400_0010), 0xcafe_f00d);
    // the DMA registers moved past the transfer
    assert_eq!(bus.read_data(0x0404_0000), 0x0000_0018);
    assert_eq!(bus.read_data(0x0404_0004), 0x0000_2008);
}

#[test]
fn bus_rdp_dma_starts_a_run() {
    let mut bus = Bus::new(rom());
    // SET_FILL_COLOR, FILL_RECTANGLE, SYNC_FULL in RDRAM at 0x3000
    let words: [u64; 3] = [0x3700_0000_ffff_ffff, 0x3600_0000_0000_0000, 0x2900_0000_0000_0000];
    for (i, w) in words.iter().enumerate() {
        let at = 0x3000 + 8 * i as u32;
        assert!(!bus.write_data(at, (w >> 32) as u32));
        assert!(!bus.write_data(at + 4, *w as u32));
    }
    // enable the DP interrupt (MI_INTR_MASK bit 11)
    assert!(!bus.write_data(0x0430_000c, 0x0000_0800));
    assert!(!bus.write_data(0x0410_0000, 0x0000_3000)); // DP_START
    assert!(bus.write_data(0x0410_0004, 0x0000_3018)); // DP_END: the run starts
    assert_eq!(bus.rdp_run_next(), Some(None));
    assert_eq!(bus.rdp_run_next(), Some(Some(Draw { cmd: 0x3600_0000_0000_0000, args: vec![] })));
    assert_eq!(bus.rdp_run_next(), Some(None));
    assert_eq!(bus.rdp_run_next(), None);
    assert!(bus.rdp_finish_run());
    assert_eq!(bus.read_data(0x0430_0008) & 0x20, 0x20);
    // DP_CURRENT is at the end, DP_STATUS says ready
    assert_eq!(bus.read_data(0x0410_0008), 0x3018);
    assert_eq!(bus.read_data(0x0410_000c) & 0x80, 0x80);
    assert!(!bus.rdp_sync());
}

#[test]
fn bus_step_advances_scan_out_and_raises_vi() {
    let mut bus = Bus::new(rom());
    // enable the VI interrupt (MI_INTR_MASK bit 7)
    assert!(!bus.write_data(0x0430_000c, 0x0000_0080));
    assert!(!bus.write_data(0x0440_001c, 2)); // VI_H_SYNC: a line every 2 cycles
    assert!(!bus.write_data(0x0440_000c, 4)); // VI_V_INTR: half-line 4, line 2
    bus.step();
    assert_eq!(bus.read_data(0x0440_0010), 0);
    assert_eq!(bus.read_data(0x0430_0008) & 0x08, 0);
    bus.step();
    assert_eq!(bus.read_data(0x0440_0010), 2);
    assert_eq!(bus.read_data(0x0430_0008) & 0x08, 0x08);
    // writing VI_V_CURRENT acknowledges it
    assert!(!bus.write_data(0x0440_0010, 0));
    assert_eq!(bus.read_data(0x0430_0008) & 0x08, 0);
}

#[test]
fn instance_starts_at_the_boot_code() {
    let mut instance = Instance::new(rom());
    assert_eq!(IPL3_START_ADDRESS, 0xa400_0040);
    assert_eq!(instance.core.pc(), 0xa400_0040);
    assert_eq!(instance.core.getd(20), 1);
    assert_eq!(instance.core.getd(22), 0x3f);
    assert_eq!(instance.core.getd(29), 0xffff_ffff_a400_1ff0);
    assert_eq!(instance.core.getd(31), 0);
    assert!(!instance.core.is_delay());
    assert_eq!(instance.bus.read_data(0x0400_0000), 0x8037_1240);
}
