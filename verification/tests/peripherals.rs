use utopia::header::parse;
use utopia::interrupt::{CpuInterrupt, RcpIntType, RcpInterrupt};
use utopia::joypad::JoypadState;
use utopia::rdp::pipeline::Pipeline;
use utopia::serial::pif::{crc, query_joybus, Pif};
use utopia::video::{decode_rgba16, VideoInterface};

#[test]
fn crc_of_known_blocks() {
    assert_eq!(crc(&[0u8; 32]), 0x00);
    let mut data = [0u8; 32];
    data[31] = 1;
    assert_eq!(crc(&data), 0x85);
    let data: Vec<u8> = (0..32).collect();
    assert_eq!(crc(&data), 0x33);
    assert_eq!(crc(&[0xffu8; 32]), 0x0a);
}

#[test]
fn joybus_queries() {
    let mut joypads = [[0u8; 4]; 4];
    joypads[0] = [0x80, 0x20, 0x10, 0xf0];
    assert_eq!(query_joybus(&joypads, 0, &[0x00]).unwrap().as_slice(), &[0x05, 0x00, 0x02][..]);
    assert_eq!(query_joybus(&joypads, 0, &[0xff]).unwrap().as_slice(), &[0x05, 0x00, 0x02][..]);
    assert!(query_joybus(&joypads, 1, &[0x00]).is_none());
    assert_eq!(query_joybus(&joypads, 4, &[0x00]).unwrap().as_slice(), &[0x00, 0x80, 0x00][..]);
    assert_eq!(query_joybus(&joypads, 0, &[0x01]).unwrap().as_slice(), &[0x80, 0x20, 0x10, 0xf0][..]);
    assert_eq!(query_joybus(&joypads, 4, &[0x04]).unwrap().as_slice(), &[0u8; 8][..]);
    assert_eq!(query_joybus(&joypads, 4, &[0x05]).unwrap().as_slice(), &[0x00][..]);
    let pak_read = query_joybus(&joypads, 2, &[0x02, 0x00, 0x00]).unwrap();
    assert_eq!(pak_read.len(), 33);
    assert_eq!(pak_read[32], 0);
}

#[test]
fn pif_program_reads_controller() {
    let mut pif = Pif::new();
    let mut state = JoypadState { buttons: [false; 16], axes: [0; 4] };
    state.buttons[0] = true;
    pif.update_joypad(&state);
    let program = [0x01u8, 0x04, 0x01, 0xff, 0xff, 0xff, 0xff, 0xfe];
    for (i, byte) in program.iter().enumerate() {
        pif.write_u8(0x7c0 + i as u32, *byte);
    }
    pif.write_u8(0x7ff, 0x01);
    pif.upload();
    pif.process();
    assert_eq!(pif.read_u8(0x7c3), 0x80);
    assert_eq!(pif.read_u8(0x7c4), 0x00);
    assert_eq!(pif.read_u8(0x7c6), 0x00);
    assert_eq!(pif.read_u8(0x7c7), 0xfe);
    assert_eq!(pif.read_u8(0x7ff), 0x00);
}

#[test]
fn pif_marks_absent_controllers() {
    let mut pif = Pif::new();
    // skip channel 0, then query channel 1, which has no controller
    let program = [0x00u8, 0x01, 0x03, 0x00, 0xff, 0xff, 0xff, 0xfe];
    for (i, byte) in program.iter().enumerate() {
        pif.write_u8(0x7c0 + i as u32, *byte);
    }
    pif.write_u8(0x7ff, 0x01);
    pif.upload();
    pif.process();
    assert_eq!(pif.read_u8(0x7c2), 0x83);
}

#[test]
fn pif_rom_is_read_only() {
    let mut pif = Pif::new();
    pif.write_u8(0x10, 0x55);
    assert_eq!(pif.read_u8(0x10), 0);
    pif.write(0x7c0, 0x1122_3344);
    assert_eq!(pif.read(0x7c0), 0x1122_3344);
    assert_eq!(pif.read_u8(0x7c1), 0x22);
}

#[test]
fn stick_and_buttons_encoding() {
    let mut pif = Pif::new();
    let mut state = JoypadState { buttons: [false; 16], axes: [0; 4] };
    state.buttons[9] = true;
    state.buttons[6] = true;
    state.axes[0] = i32::MAX;
    state.axes[1] = i32::MIN;
    pif.update_joypad(&state);
    let program = [0x01u8, 0x04, 0x01, 0xff, 0xff, 0xff, 0xff, 0xfe];
    for (i, byte) in program.iter().enumerate() {
        pif.write_u8(0x7c0 + i as u32, *byte);
    }
    pif.write_u8(0x7ff, 0x01);
    pif.upload();
    pif.process();
    assert_eq!(pif.read_u8(0x7c3), 0x10);
    assert_eq!(pif.read_u8(0x7c4), 0x20);
    assert_eq!(pif.read_u8(0x7c5), ((i32::MAX / 20 * 13) >> 24) as u8);
    assert_eq!(pif.read_u8(0x7c6), ((i32::MIN / 20 * 13) >> 24) as u8);
}

#[test]
fn header_fields() {
    let mut rom = vec![0u8; 0x40];
    rom[0x08..0x0c].copy_from_slice(&[0x80, 0x00, 0x04, 0x00]);
    rom[0x20..0x34].copy_from_slice(b"SUPER MARIO 64      ");
    let header = parse(&rom);
    assert_eq!(header.boot_address, 0x8000_0400);
    assert_eq!(header.title, "SUPER MARIO 64      ");
}

#[test]
fn header_title_replaces_invalid_bytes() {
    let mut rom = vec![0u8; 0x40];
    rom[0x20] = 0xff;
    rom[0x21] = b'A';
    let header = parse(&rom);
    assert!(header.title.starts_with("\u{fffd}A"));
    assert_eq!(header.boot_address, 0);
}

#[test]
fn rgba16_pixels() {
    assert_eq!(decode_rgba16(&[0xf8, 0x01]), [248, 0, 0, 255]);
    assert_eq!(decode_rgba16(&[0x08, 0x86]), [8, 16, 24, 0]);
    assert_eq!(decode_rgba16(&[0xff, 0xff]), [248, 248, 248, 255]);
}

#[test]
fn video_frame_and_interrupt_timing() {
    let mut rcp = RcpInterrupt::new(CpuInterrupt::new());
    let mut vi = VideoInterface::new();
    assert!(!vi.frame_complete());
    vi.step(&mut rcp, 2047 * 0x1ff - 1);
    assert!(!rcp.has(RcpIntType::VI));
    vi.step(&mut rcp, 1);
    assert!(rcp.has(RcpIntType::VI));
    assert!(!vi.frame_complete());
    vi.step(&mut rcp, 2047 * (0x3ff - 0x1ff));
    assert!(vi.frame_complete());
    vi.reset_frame_complete();
    assert!(!vi.frame_complete());
}

#[test]
fn pipeline_words_are_big_endian() {
    let mut pipeline = Pipeline::new();
    pipeline.upload(&[0x27, 0, 0, 0, 0, 0, 0, 1, 0x29, 0, 0, 0, 0, 0, 0, 2, 0xaa]);
    assert_eq!(pipeline.next_word(), 0x2700_0000_0000_0001);
    assert_eq!(pipeline.next_word(), 0x2900_0000_0000_0002);
}
