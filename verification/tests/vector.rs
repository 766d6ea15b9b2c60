use utopia::rsp::cp2::vector::Vector;

#[test]
fn read_write() {
    let mut vec = Vector::from(0x0011_2233_4455_6677_8899_aabb_ccdd_eeff);

    assert_eq!(vec.read_u64(0), 0x0011_2233_4455_6677);
    assert_eq!(vec.read_u32(8), 0x8899_aabb);
    assert_eq!(vec.read_u16(12), 0xccdd);
    assert_eq!(vec.read_u8(14), 0xee);

    vec.write_u64(8, 0x0011_2233_4455_6677);
    vec.write_u32(4, 0x8899_aabb);
    vec.write_u16(2, 0xccdd);
    vec.write_u8(1, 0xee);

    assert_eq!(u128::from(vec), 0x00ee_ccdd_8899_aabb_0011_2233_4455_6677);
}

#[test]
fn read_write_end() {
    let mut vec = Vector::from(0x0011_2233_4455_6677_8899_aabb_ccdd_eeff);

    assert_eq!(vec.read_u64(12), 0xccdd_eeff_0000_0000);

    vec.write_u64(12, 0x0011_2233_4455_6677);

    assert_eq!(u128::from(vec), 0x0011_2233_4455_6677_8899_aabb_0011_2233);
}

#[test]
fn broadcast() {
    let vec = Vector::from(0x0000_1111_2222_3333_4444_5555_6666_7777);

    assert_eq!(
        u128::from(vec.broadcast(0)),
        0x0000_1111_2222_3333_4444_5555_6666_7777,
    );

    assert_eq!(
        u128::from(vec.broadcast(1)),
        0x0000_1111_2222_3333_4444_5555_6666_7777,
    );

    assert_eq!(
        u128::from(vec.broadcast(2)),
        0x0000_0000_2222_2222_4444_4444_6666_6666,
    );

    assert_eq!(
        u128::from(vec.broadcast(3)),
        0x1111_1111_3333_3333_5555_5555_7777_7777,
    );

    assert_eq!(
        u128::from(vec.broadcast(4)),
        0x0000_0000_0000_0000_4444_4444_4444_4444,
    );

    assert_eq!(
        u128::from(vec.broadcast(5)),
        0x1111_1111_1111_1111_5555_5555_5555_5555,
    );

    assert_eq!(
        u128::from(vec.broadcast(6)),
        0x2222_2222_2222_2222_6666_6666_6666_6666,
    );

    assert_eq!(
        u128::from(vec.broadcast(7)),
        0x3333_3333_3333_3333_7777_7777_7777_7777,
    );

    assert_eq!(
        u128::from(vec.broadcast(8)),
        0x0000_0000_0000_0000_0000_0000_0000_0000,
    );

    assert_eq!(
        u128::from(vec.broadcast(9)),
        0x1111_1111_1111_1111_1111_1111_1111_1111,
    );

    assert_eq!(
        u128::from(vec.broadcast(10)),
        0x2222_2222_2222_2222_2222_2222_2222_2222,
    );

    assert_eq!(
        u128::from(vec.broadcast(11)),
        0x3333_3333_3333_3333_3333_3333_3333_3333,
    );

    assert_eq!(
        u128::from(vec.broadcast(12)),
        0x4444_4444_4444_4444_4444_4444_4444_4444,
    );

    assert_eq!(
        u128::from(vec.broadcast(13)),
        0x5555_5555_5555_5555_5555_5555_5555_5555,
    );

    assert_eq!(
        u128::from(vec.broadcast(14)),
        0x6666_6666_6666_6666_6666_6666_6666_6666,
    );

    assert_eq!(
        u128::from(vec.broadcast(15)),
        0x7777_7777_7777_7777_7777_7777_7777_7777,
    );
}
