use utopia::interrupt::{CpuInterrupt, RcpIntType, RcpInterrupt};
use utopia::memory::Masked;
use utopia::rdp::Rdp;
use utopia::rsp::cp0::registers::Registers;
use utopia::rdp::engine::command::Mode;
use utopia::rdp::engine::{dispatch, Core, Draw, Z_BUFFER_MAX};

fn op(code: u64) -> u64 {
    code << 56
}

#[test]
fn new_core_state() {
    let core = Core::new();
    assert!(!core.sync_required());
    assert!(!core.interrupt());
    assert_eq!(*core.mode(), Mode { use_prim_depth: false });
    assert_eq!(core.prim_depth(), Z_BUFFER_MAX);
    assert_eq!(core.target().fill_color(), 0);
}

#[test]
fn core_flags_are_set_and_cleared() {
    let mut core = Core::new();
    core.set_sync_required(true);
    core.set_interrupt(true);
    core.set_mode(Mode { use_prim_depth: true });
    core.set_prim_depth(0x8000);
    assert!(core.sync_required());
    assert!(core.interrupt());
    assert!(core.mode().use_prim_depth);
    assert_eq!(core.prim_depth(), 0x8000);
}

#[test]
fn state_commands_update_the_core() {
    let mut core = Core::new();
    let rdram = vec![0u8; 64];
    let commands = [
        op(0x37) | 0xdead_beef,       // SET_FILL_COLOR
        op(0x2e) | 0x0001_8000,       // SET_PRIM_DEPTH: 1.5
        op(0x2f) | 0x4,               // SET_OTHER_MODES: depth from the primitive
        op(0x29),                     // SYNC_FULL
        op(0x27),                     // SYNC_PIPE: nothing
    ];
    let mut at = 0;
    while at < commands.len() {
        let (next, draw) = dispatch(&mut core, &rdram, &commands, at);
        assert!(draw.is_none());
        assert_eq!(next, at + 1);
        at = next;
    }
    assert_eq!(core.target().fill_color(), 0xdead_beef);
    assert_eq!(core.prim_depth(), 0x0001_8000);
    assert!(core.mode().use_prim_depth);
    assert!(core.interrupt());
}

#[test]
fn primitives_are_handed_out_with_their_words() {
    let mut core = Core::new();
    let rdram = vec![0u8; 8];
    let mut commands: Vec<u64> = vec![op(0x0d)];
    commands.extend(1..=13u64);
    commands.push(op(0x24) | 7);
    commands.push(99);
    commands.push(op(0x36));
    commands.push(op(0x08));
    commands.extend([21u64, 22, 23]);

    let (next, draw) = dispatch(&mut core, &rdram, &commands, 0);
    assert_eq!(next, 14);
    assert_eq!(draw, Some(Draw { cmd: op(0x0d), args: (1..=13u64).collect() }));
    let (next, draw) = dispatch(&mut core, &rdram, &commands, 14);
    assert_eq!(next, 16);
    assert_eq!(draw, Some(Draw { cmd: op(0x24) | 7, args: vec![99] }));
    let (next, draw) = dispatch(&mut core, &rdram, &commands, 16);
    assert_eq!(next, 17);
    assert_eq!(draw, Some(Draw { cmd: op(0x36), args: vec![] }));
    let (next, draw) = dispatch(&mut core, &rdram, &commands, 17);
    assert_eq!(next, 21);
    assert_eq!(draw, Some(Draw { cmd: op(0x08), args: vec![21, 22, 23] }));
}

#[test]
fn texture_commands_through_dispatch() {
    let mut core = Core::new();
    let rdram: Vec<u8> = (1..=16).collect();
    let commands = [
        op(0x3d) | (3u64 << 51) | (1u64 << 32),          // SET_TEXTURE_IMAGE: RGBA32, 2 wide
        op(0x35) | (3u64 << 51) | (8u64 << 32) | (1u64 << 24), // SET_TILE 1 at word 8
        op(0x34) | (1u64 << 24) | (4u64 << 12) | 4,      // LOAD_TILE 1, two lines
    ];
    for at in 0..3 {
        let (next, draw) = dispatch(&mut core, &rdram, &commands, at);
        assert_eq!(next, at + 1);
        assert!(draw.is_none());
    }
    assert_eq!(core.tmem().data()[8], 0x0807_0605_0403_0201);
    assert_eq!(core.tmem().data()[9], 0x0c0b_0a09_100f_0e0d);
    let (texels, _) = core.tmem().request_texture(1);
    assert_eq!(texels, rdram);
}

#[test]
fn rdp_run_reports_sync_and_interrupt() {
    let mut rdp = Rdp::new();
    let mut regs = Registers::new();
    let mut rcp = RcpInterrupt::new(CpuInterrupt::new());
    // SET_FILL_COLOR, FILL_RECTANGLE, SYNC_FULL, as big-endian words
    let words = [op(0x37) | 0x1234_5678, op(0x36), op(0x29)];
    let bytes: Vec<u8> = words.iter().flat_map(|w| w.to_be_bytes()).collect();
    rdp.upload(&bytes);
    rdp.start_run();
    let rdram = vec![0u8; 8];
    assert_eq!(rdp.run_next(&rdram), Some(None));
    assert_eq!(rdp.run_next(&rdram), Some(Some(Draw { cmd: op(0x36), args: vec![] })));
    assert_eq!(rdp.command_state().target().fill_color(), 0x1234_5678);
    assert_eq!(rdp.run_next(&rdram), Some(None));
    assert_eq!(rdp.run_next(&rdram), None);
    assert!(rdp.command_state().interrupt());
    assert!(rdp.finish_run(&mut regs, &mut rcp));
    assert!(rcp.has(RcpIntType::DP));
    assert_eq!(regs.get(11) & 0x80, 0x80);
    assert!(!rdp.sync());
    // a run without SYNC_FULL leaves a sync due
    rdp.upload(&op(0x27).to_be_bytes());
    rdp.start_run();
    assert_eq!(rdp.run_next(&rdram), Some(None));
    assert!(!rdp.finish_run(&mut regs, &mut rcp));
    assert!(rdp.sync());
    assert!(!rdp.sync());
    // a DP_END write through the command registers requests a DMA
    {
        let mut command = rdp.command_mut(&mut regs);
        command.write_register(&mut rcp, 0, Masked::full(0x100));
        command.write_register(&mut rcp, 4, Masked::full(0x140));
    }
    assert!(rdp.poll_dma().is_some());
    assert!(rdp.poll_dma().is_none());
    assert_eq!(rdp.command(&regs).read_register(4), 0x140);
}
