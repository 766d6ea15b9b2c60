use utopia::rsp::cp2::Cp2;

fn dmem() -> Vec<u8> {
    (0..4096).map(|i| i as u8).collect()
}

fn ls_word(opcode: u32, vt: u32, element: u32, offset: u32) -> u32 {
    (vt << 16) | (opcode << 11) | (element << 7) | (offset & 0x7f)
}

#[test]
fn quad_load_and_store() {
    let mut cp2 = Cp2::new();
    let mut mem = dmem();
    cp2.lwc2(&mem, 0x10, ls_word(4, 1, 0, 0));
    let lanes = cp2.get_be(1);
    assert_eq!(lanes[0], 0x1011);
    assert_eq!(lanes[7], 0x1e1f);
    cp2.swc2(&mut mem, 0x200, ls_word(4, 1, 0, 0));
    assert_eq!(&mem[0x200..0x210], &(0x10..0x20).map(|i| i as u8).collect::<Vec<u8>>()[..]);
    assert_eq!(mem[0x210], 0x10);
}

#[test]
fn quad_load_stops_at_boundary() {
    let mut cp2 = Cp2::new();
    let mem = dmem();
    cp2.lwc2(&mem, 0x1a, ls_word(4, 1, 0, 0));
    let lanes = cp2.get_be(1);
    assert_eq!(lanes[0], 0x1a1b);
    assert_eq!(lanes[2], 0x1e1f);
    assert_eq!(lanes[3], 0);
}

#[test]
fn rest_load_fills_register_end() {
    let mut cp2 = Cp2::new();
    let mem = dmem();
    cp2.lwc2(&mem, 0x24, ls_word(5, 1, 0, 0));
    let lanes = cp2.get_be(1);
    assert_eq!(lanes[5], 0);
    assert_eq!(lanes[6], 0x2021);
    assert_eq!(lanes[7], 0x2223);
}

#[test]
fn offsets_scale_with_access_size() {
    let mut cp2 = Cp2::new();
    let mem = dmem();
    // LDV: offset 1 means 8 bytes
    cp2.lwc2(&mem, 0x100, ls_word(3, 2, 0, 1));
    assert_eq!(cp2.get_be(2)[0], 0x0809);
    // LSV: offset -1 (0x7f) means -2 bytes
    cp2.lwc2(&mem, 0x100, ls_word(1, 3, 4, 0x7f));
    assert_eq!(cp2.get_be(3)[2], 0xfeff);
}

#[test]
fn dmem_addresses_wrap() {
    let mut cp2 = Cp2::new();
    let mem = dmem();
    cp2.lwc2(&mem, 0xffe, ls_word(2, 1, 0, 0));
    assert_eq!(cp2.get_be(1)[0], 0xfeff);
    assert_eq!(cp2.get_be(1)[1], 0x0001);
}

#[test]
fn packed_load_and_store() {
    let mut cp2 = Cp2::new();
    let mut mem = dmem();
    cp2.lwc2(&mem, 0x40, ls_word(6, 1, 0, 0));
    assert_eq!(cp2.get_be(1)[0], 0x4000);
    assert_eq!(cp2.get_be(1)[7], 0x4700);
    cp2.lwc2(&mem, 0x40, ls_word(7, 2, 0, 0));
    assert_eq!(cp2.get_be(2)[1], 0x41 << 7);
    cp2.swc2(&mut mem, 0x300, ls_word(6, 1, 0, 0));
    assert_eq!(&mem[0x300..0x308], &[0x40, 0x41, 0x42, 0x43, 0x44, 0x45, 0x46, 0x47]);
    cp2.swc2(&mut mem, 0x310, ls_word(7, 2, 0, 0));
    assert_eq!(mem[0x311], 0x41);
}

#[test]
fn transposed_load() {
    let mut cp2 = Cp2::new();
    let mem = dmem();
    cp2.lwc2(&mem, 0x80, ls_word(0x0b, 8, 0, 0));
    for i in 0..8usize {
        let lanes = cp2.get_be(8 + i);
        let expected = (((0x80 + 2 * i) as u16) << 8) | ((0x81 + 2 * i) as u16 & 0xff);
        assert_eq!(lanes[i], expected);
    }
}

#[test]
fn transposed_store() {
    let mut cp2 = Cp2::new();
    let mut mem = vec![0u8; 4096];
    for r in 0..8u32 {
        for lane in 0..8u32 {
            cp2.mtc2(((16 + r) << 11) | ((lane * 2) << 7), (r * 0x100 + lane) as u32);
        }
    }
    cp2.swc2(&mut mem, 0x40, ls_word(0x0b, 16, 0, 0));
    // element 0: lane i of register 16 + i
    for i in 0..8usize {
        assert_eq!(mem[0x40 + 2 * i], i as u8);
        assert_eq!(mem[0x41 + 2 * i], i as u8);
    }
}

#[test]
fn single_stores() {
    let mut cp2 = Cp2::new();
    let mut mem = vec![0u8; 4096];
    cp2.mtc2((1 << 11) | (2 << 7), 0xbeef);
    cp2.swc2(&mut mem, 0x20, ls_word(1, 1, 2, 0));
    assert_eq!(&mem[0x20..0x22], &[0xbe, 0xef]);
    cp2.swc2(&mut mem, 0x30, ls_word(0, 1, 3, 0));
    assert_eq!(mem[0x30], 0xef);
    // a word store from element 14 runs past the register: zeros follow
    cp2.mtc2((1 << 11) | (14 << 7), 0x1234);
    cp2.swc2(&mut mem, 0x40, ls_word(2, 1, 14, 0));
    assert_eq!(&mem[0x40..0x44], &[0x12, 0x34, 0, 0]);
}
