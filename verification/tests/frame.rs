use sm2335egh::frame::{
    Mode, Msg, ADDR_STANDBY, ADDR_START_2CH, ADDR_START_3CH, ADDR_START_5CH, BIT_DEPTH,
    CHANNEL_MAX,
};

#[test]
fn channel_max_is_full_scale_of_bit_depth() {
    assert_eq!(BIT_DEPTH, 10);
    assert_eq!(CHANNEL_MAX, (1u16 << BIT_DEPTH) - 1);
    assert_eq!(CHANNEL_MAX, 1023);
}

#[test]
fn address_bytes_have_fixed_marker_and_zero_offset() {
    assert_eq!(ADDR_STANDBY, 0xC0);
    assert_eq!(ADDR_START_3CH, 0xC8);
    assert_eq!(ADDR_START_2CH, 0xD0);
    assert_eq!(ADDR_START_5CH, 0xD8);
    for addr in [ADDR_STANDBY, ADDR_START_3CH, ADDR_START_2CH, ADDR_START_5CH] {
        assert_eq!(addr >> 6, 0b11);
        assert_eq!((addr >> 5) & 1, 0);
        assert_eq!(addr & 0b111, 0);
    }
    assert_eq!((ADDR_STANDBY >> 3) & 0b11, 0b00);
    assert_eq!((ADDR_START_3CH >> 3) & 0b11, 0b01);
    assert_eq!((ADDR_START_2CH >> 3) & 0b11, 0b10);
    assert_eq!((ADDR_START_5CH >> 3) & 0b11, 0b11);
}

#[test]
fn mode_follows_ranked_rules() {
    assert_eq!(Mode::of(&[0, 0, 0, 0, 0]), Mode::Standby);
    assert_eq!(Mode::of(&[1, 0, 0, 0, 0]), Mode::ThreeChannel);
    assert_eq!(Mode::of(&[0, 1, 0, 0, 0]), Mode::ThreeChannel);
    assert_eq!(Mode::of(&[0, 0, 1, 0, 0]), Mode::ThreeChannel);
    assert_eq!(Mode::of(&[7, 8, 9, 0, 0]), Mode::ThreeChannel);
    assert_eq!(Mode::of(&[0, 0, 0, 1, 0]), Mode::TwoChannel);
    assert_eq!(Mode::of(&[0, 0, 0, 0, 1]), Mode::TwoChannel);
    assert_eq!(Mode::of(&[0, 0, 0, 5, 6]), Mode::TwoChannel);
    assert_eq!(Mode::of(&[1, 0, 0, 0, 1]), Mode::FiveChannel);
    assert_eq!(Mode::of(&[0, 0, 1, 1, 0]), Mode::FiveChannel);
    assert_eq!(Mode::of(&[1, 2, 3, 4, 5]), Mode::FiveChannel);
    assert_eq!(Mode::of(&[65535, 0, 0, 0, 0]), Mode::ThreeChannel);
}

#[test]
fn mode_address_bytes() {
    assert_eq!(Mode::Standby.address(), 0b11_0_00_000);
    assert_eq!(Mode::ThreeChannel.address(), 0b11_0_01_000);
    assert_eq!(Mode::TwoChannel.address(), 0b11_0_10_000);
    assert_eq!(Mode::FiveChannel.address(), 0b11_0_11_000);
}

#[test]
fn zeroed_is_twelve_zero_bytes() {
    assert_eq!(Msg::zeroed().0, [0u8; 12]);
}

#[test]
fn set_addr_writes_byte_zero_only() {
    let mut msg = Msg([0x11; 12]);
    msg.set_addr(0xD8);
    assert_eq!(
        msg.0,
        [0xD8, 0x11, 0x11, 0x11, 0x11, 0x11, 0x11, 0x11, 0x11, 0x11, 0x11, 0x11]
    );
}

#[test]
fn set_rgb_power_level_writes_high_nibble_only() {
    let mut msg = Msg::zeroed();
    msg.set_rgb_power_level(0x2);
    assert_eq!(msg.0[1], 0x20);
    let mut msg = Msg([0xAB; 12]);
    msg.set_rgb_power_level(0x7);
    assert_eq!(msg.0[1], 0x7B);
    assert_eq!(msg.0[0], 0xAB);
    assert_eq!(msg.0[2], 0xAB);
}

#[test]
fn set_rgb_power_level_keeps_low_four_bits_of_level() {
    let mut msg = Msg([0x05; 12]);
    msg.set_rgb_power_level(0x1F);
    assert_eq!(msg.0[1], 0xF5);
    msg.set_rgb_power_level(0xF0);
    assert_eq!(msg.0[1], 0x05);
}

#[test]
fn set_cw_power_level_writes_low_nibble_only() {
    let mut msg = Msg::zeroed();
    msg.set_cw_power_level(0x4);
    assert_eq!(msg.0[1], 0x04);
    let mut msg = Msg([0xAB; 12]);
    msg.set_cw_power_level(0x7);
    assert_eq!(msg.0[1], 0xA7);
    assert_eq!(msg.0[0], 0xAB);
    assert_eq!(msg.0[2], 0xAB);
}

#[test]
fn set_cw_power_level_keeps_low_four_bits_of_level() {
    let mut msg = Msg([0x50; 12]);
    msg.set_cw_power_level(0x2C);
    assert_eq!(msg.0[1], 0x5C);
    msg.set_cw_power_level(0xF0);
    assert_eq!(msg.0[1], 0x50);
}

#[test]
fn set_channel_values_packs_big_endian_in_order() {
    let mut msg = Msg([0xEE; 12]);
    msg.set_channel_values(&[0x0102, 0x0203, 0x0304, 0x0005, 0x03FF]);
    assert_eq!(
        msg.0,
        [0xEE, 0xEE, 0x01, 0x02, 0x02, 0x03, 0x03, 0x04, 0x00, 0x05, 0x03, 0xFF]
    );
}

#[test]
fn set_channel_values_clamps_to_channel_max() {
    let mut msg = Msg::zeroed();
    msg.set_channel_values(&[1023, 1024, 2000, 65535, 1022]);
    assert_eq!(
        msg.0,
        [0, 0, 0x03, 0xFF, 0x03, 0xFF, 0x03, 0xFF, 0x03, 0xFF, 0x03, 0xFE]
    );
}

#[test]
fn encode_example_frame() {
    let msg = Msg::encode(&[1023, 0, 800, 0, 0], 0x2, 0x4);
    assert_eq!(
        msg.0,
        [0b11001000, 0x20, 0x03, 0xFF, 0x00, 0x00, 0x03, 0x20, 0x00, 0x00, 0x00, 0x00]
    );
}

#[test]
fn encode_standby_has_no_power_level() {
    let msg = Msg::encode(&[0, 0, 0, 0, 0], 0x2, 0x4);
    assert_eq!(msg.0, [0b11_0_00_000, 0, 0, 0, 0, 0, 0, 0, 0, 0, 0, 0]);
    let msg = Msg::encode(&[0, 0, 0, 0, 0], 0xF, 0xF);
    assert_eq!(msg.0, [0b11_0_00_000, 0, 0, 0, 0, 0, 0, 0, 0, 0, 0, 0]);
}

#[test]
fn encode_three_channel_sends_rgb_level_only() {
    for values in [[1u16, 0, 0, 0, 0], [0, 1, 0, 0, 0], [0, 0, 1, 0, 0], [5, 6, 7, 0, 0]] {
        let msg = Msg::encode(&values, 0x9, 0x6);
        assert_eq!(msg.0[0], 0b11_0_01_000);
        assert_eq!(msg.0[1] >> 4, 0x9);
        assert_eq!(msg.0[1] & 0x0F, 0);
    }
}

#[test]
fn encode_two_channel_sends_cw_level_only() {
    for values in [[0u16, 0, 0, 1, 0], [0, 0, 0, 0, 1], [0, 0, 0, 8, 9]] {
        let msg = Msg::encode(&values, 0x9, 0x6);
        assert_eq!(msg.0[0], 0b11_0_10_000);
        assert_eq!(msg.0[1] >> 4, 0);
        assert_eq!(msg.0[1] & 0x0F, 0x6);
    }
}

#[test]
fn encode_five_channel_sends_both_levels() {
    for values in [[1u16, 0, 0, 0, 1], [0, 0, 1, 1, 0], [1, 2, 3, 4, 5]] {
        let msg = Msg::encode(&values, 0x9, 0x6);
        assert_eq!(msg.0[0], 0b11_0_11_000);
        assert_eq!(msg.0[1], 0x96);
    }
}

#[test]
fn encode_packs_in_range_values_unchanged_in_every_mode() {
    let cases: [[u16; 5]; 4] = [
        [0, 0, 0, 0, 0],
        [1, 256, 1023, 0, 0],
        [0, 0, 0, 255, 512],
        [1000, 1, 2, 3, 767],
    ];
    for values in cases {
        let msg = Msg::encode(&values, 0x3, 0xA);
        for (i, value) in values.iter().enumerate() {
            let be = value.to_be_bytes();
            assert_eq!(msg.0[2 + 2 * i], be[0]);
            assert_eq!(msg.0[3 + 2 * i], be[1]);
            assert_eq!(u16::from_be_bytes([msg.0[2 + 2 * i], msg.0[3 + 2 * i]]), *value);
        }
    }
}

#[test]
fn encode_clamps_2000_and_1024_to_1023() {
    let at_max = Msg::encode(&[1023, 0, 0, 0, 1023], 0x2, 0x4);
    assert_eq!(Msg::encode(&[2000, 0, 0, 0, 2000], 0x2, 0x4), at_max);
    assert_eq!(Msg::encode(&[1024, 0, 0, 0, 1024], 0x2, 0x4), at_max);
    assert_eq!(Msg::encode(&[65535, 0, 0, 0, 1024], 0x2, 0x4), at_max);
    assert_eq!(
        at_max.0,
        [0b11_0_11_000, 0x24, 0x03, 0xFF, 0, 0, 0, 0, 0, 0, 0x03, 0xFF]
    );
    assert_ne!(Msg::encode(&[1022, 0, 0, 0, 1023], 0x2, 0x4), at_max);
}

#[test]
fn encode_keeps_low_four_bits_of_levels() {
    let msg = Msg::encode(&[1, 0, 0, 0, 1], 0x1F, 0x2C);
    assert_eq!(msg.0[1], 0xFC);
}

/// The frame for the given inputs, built the plain way.
fn plain_frame(values: &[u16; 5], rgb: u8, cw: u8) -> [u8; 12] {
    let mut frame = [0u8; 12];
    for (i, value) in values.iter().enumerate() {
        frame[2 + 2 * i..][..2].copy_from_slice(&(*value).min(1023).to_be_bytes());
    }
    match values {
        [0, 0, 0, 0, 0] => frame[0] = 0b11_0_00_000,
        [.., 0, 0] => {
            frame[0] = 0b11_0_01_000;
            frame[1] = (rgb & 0xF) << 4;
        }
        [0, 0, 0, ..] => {
            frame[0] = 0b11_0_10_000;
            frame[1] = cw & 0xF;
        }
        _ => {
            frame[0] = 0b11_0_11_000;
            frame[1] = ((rgb & 0xF) << 4) | (cw & 0xF);
        }
    }
    frame
}

#[test]
fn encode_agrees_with_plain_construction_on_a_grid() {
    let grid: [u16; 7] = [0, 1, 255, 256, 1023, 1024, 65535];
    let levels: [(u8, u8); 4] = [(0x2, 0x4), (0x0, 0xF), (0x1F, 0x2C), (0xFF, 0x80)];
    let mut frames = 0u32;
    for a in grid {
        for b in grid {
            for c in grid {
                for d in grid {
                    for e in grid {
                        let values = [a, b, c, d, e];
                        for (rgb, cw) in levels {
                            assert_eq!(
                                Msg::encode(&values, rgb, cw).0,
                                plain_frame(&values, rgb, cw)
                            );
                            frames += 1;
                        }
                    }
                }
            }
        }
    }
    assert_eq!(frames, 7 * 7 * 7 * 7 * 7 * 4);
}
