use openterface::event::{AbsPosition, ButtonMask, HidUsage, Modifiers, ABS_MAX};
use openterface::protocol::ch9329::{
    checksum, cmd, frame, get_info, keyboard, keyboard_release, mouse_absolute, mouse_relative,
    parse_response, set_para_cfg, software_reset, text_to_reports,
};
use openterface::protocol::hid::{ascii_to_hid, evdev_to_hid, is_modifier, modifier_bit};

#[test]
fn checksum_wraps() {
    assert_eq!(checksum(&[0x57, 0xAB, 0x00]), 0x02);
    assert_eq!(checksum(&[0xFF, 0x01]), 0x00);
    assert_eq!(checksum(&[]), 0x00);
}

#[test]
fn frame_has_prefix_len_and_checksum() {
    let f = frame(cmd::GET_INFO, &[]);
    assert_eq!(&f[..5], &[0x57, 0xAB, 0x00, 0x01, 0x00]);
    assert_eq!(*f.last().unwrap(), checksum(&f[..f.len() - 1]));
    assert_eq!(*f.last().unwrap(), 0x03);
}

#[test]
fn golden_absolute_mouse() {
    let f = mouse_absolute(AbsPosition { x: 100, y: 200 }, ButtonMask::left(), 0);
    assert_eq!(
        f,
        vec![0x57, 0xAB, 0x00, 0x04, 0x07, 0x02, 0x01, 0x64, 0x00, 0xC8, 0x00, 0x00, 0x3C]
    );
}

#[test]
fn absolute_mouse_clamps_to_4095() {
    let f = mouse_absolute(AbsPosition { x: 9000, y: 4095 }, ButtonMask::none(), 0);
    assert_eq!(&f[6..12], &[0x00, 0xFF, 0x0F, 0xFF, 0x0F, 0x00]);
}

#[test]
fn golden_relative_mouse() {
    let f = mouse_relative(5, -3, ButtonMask::left(), 0);
    assert_eq!(
        f,
        vec![0x57, 0xAB, 0x00, 0x05, 0x05, 0x01, 0x01, 0x05, 0xFD, 0x00, 0x10]
    );
}

#[test]
fn relative_scroll_wheel_byte() {
    let up = mouse_relative(0, 0, ButtonMask::none(), 1);
    let down = mouse_relative(0, 0, ButtonMask::none(), -1);
    assert_eq!(up[9], 0x01);
    assert_eq!(down[9], 0xFF);
}

#[test]
fn golden_keyboard_single_key() {
    let f = keyboard(Modifiers::none(), &[HidUsage(0x04)]);
    assert_eq!(
        f,
        vec![0x57, 0xAB, 0x00, 0x02, 0x08, 0x00, 0x00, 0x04, 0x00, 0x00, 0x00, 0x00, 0x00, 0x10]
    );
}

#[test]
fn golden_ctrl_alt_del() {
    let f = keyboard(
        Modifiers::left_ctrl().union(Modifiers::left_alt()),
        &[HidUsage(0x4C)],
    );
    assert_eq!(f[5], 0x05);
    assert_eq!(f[7], 0x4C);
    assert_eq!(*f.last().unwrap(), 0x5D);
}

#[test]
fn keyboard_release_is_all_zero_report() {
    let f = keyboard_release();
    assert_eq!(
        f,
        vec![0x57, 0xAB, 0x00, 0x02, 0x08, 0x00, 0x00, 0x00, 0x00, 0x00, 0x00, 0x00, 0x00, 0x0C]
    );
}

#[test]
fn text_to_reports_types_press_release_per_char() {
    let r = text_to_reports("Ab1");
    assert_eq!(r.len(), 6);
    assert_eq!(r[0], keyboard(Modifiers::left_shift(), &[HidUsage(0x04)]));
    assert_eq!(r[1], keyboard_release());
    assert_eq!(r[2], keyboard(Modifiers::none(), &[HidUsage(0x05)]));
    assert_eq!(r[3], keyboard_release());
    assert_eq!(r[4], keyboard(Modifiers::none(), &[HidUsage(0x1E)]));
    assert_eq!(r[5], keyboard_release());
}

#[test]
fn text_to_reports_skips_unmappable() {
    assert!(text_to_reports("\u{0}").is_empty());
}

#[test]
fn set_para_cfg_is_mode_82_115200() {
    let f = set_para_cfg();
    assert_eq!(f.len(), 5 + 50 + 1);
    assert_eq!(&f[0..5], &[0x57, 0xAB, 0x00, 0x09, 0x32]);
    assert_eq!(f[5], 0x82);
    assert_eq!(&f[9..13], &[0x00, 0x01, 0xC2, 0x00]);
    let sum = checksum(&f[..f.len() - 1]);
    assert_eq!(*f.last().unwrap(), sum);
}

#[test]
fn keyboard_caps_at_six_keys() {
    let keys: Vec<HidUsage> = (0..10).map(HidUsage).collect();
    let f = keyboard(Modifiers::none(), &keys);
    assert_eq!(f[4], 0x08);
    assert_eq!(&f[7..13], &[0, 1, 2, 3, 4, 5]);
}

#[test]
fn software_reset_frame() {
    let f = software_reset();
    assert_eq!(&f[..5], &[0x57, 0xAB, 0x00, 0x0F, 0x00]);
}

#[test]
fn parse_valid_response() {
    let f = frame(0x81, &[0x42]);
    let (resp, consumed) = parse_response(&f).unwrap();
    assert_eq!(resp.cmd, 0x81);
    assert_eq!(resp.data, vec![0x42]);
    assert_eq!(consumed, f.len());
}

#[test]
fn parse_rejects_bad_checksum_and_partial() {
    let mut f = frame(0x81, &[0x42]);
    let n = f.len();
    f[n - 1] ^= 0xFF;
    assert!(parse_response(&f).is_none());
    let g = frame(0x81, &[0x42]);
    assert!(parse_response(&g[..g.len() - 1]).is_none());
    assert!(parse_response(&[0x00, 0x00, 0x00, 0x81, 0x00, 0x81]).is_none());
}

#[test]
fn frames_are_well_formed_for_sample_payloads() {
    for len in [0usize, 1, 7, 50, 250, 255] {
        let data: Vec<u8> = (0..len).map(|i| (i * 37 % 256) as u8).collect();
        for c in [0x00u8, 0x02, 0x81, 0xFF] {
            let f = frame(c, &data);
            assert_eq!(&f[..3], &[0x57, 0xAB, 0x00]);
            assert_eq!(f[3], c);
            assert_eq!(f[4] as usize, len);
            assert_eq!(f.len(), 6 + len);
            assert_eq!(*f.last().unwrap(), checksum(&f[..f.len() - 1]));
        }
    }
}

#[test]
fn absolute_coordinates_stay_clamped_for_sample_positions() {
    for x in [0u16, 1, 4095, 4096, 9000, u16::MAX] {
        for y in [0u16, 2048, 4095, 60000] {
            let f = mouse_absolute(AbsPosition { x, y }, ButtonMask::none(), 0);
            let xx = u16::from(f[7]) | (u16::from(f[8]) << 8);
            let yy = u16::from(f[9]) | (u16::from(f[10]) << 8);
            assert_eq!(xx, x.min(ABS_MAX));
            assert_eq!(yy, y.min(ABS_MAX));
        }
    }
}

#[test]
fn parse_reads_back_a_built_frame_followed_by_more_bytes() {
    let mut bytes = frame(0x82, &[1, 2, 3]);
    let len = bytes.len();
    bytes.extend_from_slice(&[0x57, 0xAB]);
    let (resp, consumed) = parse_response(&bytes).unwrap();
    assert_eq!(resp.cmd, 0x82);
    assert_eq!(resp.data, vec![1, 2, 3]);
    assert_eq!(consumed, len);
    assert_eq!(get_info(), frame(cmd::GET_INFO, &[]));
}

#[test]
fn modifier_classification_and_bits() {
    assert!(is_modifier(HidUsage(0xE0)));
    assert!(is_modifier(HidUsage(0xE7)));
    assert!(!is_modifier(HidUsage(0x04)));
    assert_eq!(modifier_bit(HidUsage(0xE0)), Some(Modifiers::left_ctrl()));
    assert_eq!(modifier_bit(HidUsage(0xE1)), Some(Modifiers::left_shift()));
    assert_eq!(modifier_bit(HidUsage(0xE2)), Some(Modifiers::left_alt()));
    assert_eq!(modifier_bit(HidUsage(0xE3)), Some(Modifiers::left_gui()));
    assert_eq!(modifier_bit(HidUsage(0xE7)), Some(Modifiers::right_gui()));
    assert_eq!(modifier_bit(HidUsage(0x04)), None);
}

#[test]
fn evdev_table_spot_checks() {
    assert_eq!(evdev_to_hid(30), Some(HidUsage(0x04)));
    assert_eq!(evdev_to_hid(44), Some(HidUsage(0x1D)));
    assert_eq!(evdev_to_hid(2), Some(HidUsage(0x1E)));
    assert_eq!(evdev_to_hid(11), Some(HidUsage(0x27)));
    assert_eq!(evdev_to_hid(28), Some(HidUsage(0x28)));
    assert_eq!(evdev_to_hid(1), Some(HidUsage(0x29)));
    assert_eq!(evdev_to_hid(57), Some(HidUsage(0x2C)));
    assert_eq!(evdev_to_hid(59), Some(HidUsage(0x3A)));
    assert_eq!(evdev_to_hid(103), Some(HidUsage(0x52)));
    assert_eq!(evdev_to_hid(111), Some(HidUsage(0x4C)));
    assert_eq!(evdev_to_hid(29), Some(HidUsage(0xE0)));
    assert_eq!(evdev_to_hid(43), Some(HidUsage(0x32)));
    assert_eq!(evdev_to_hid(86), Some(HidUsage(0x64)));
    assert_eq!(evdev_to_hid(0xFFFF), None);
}

#[test]
fn evdev_letters_are_modifier_aware() {
    assert!(!is_modifier(evdev_to_hid(30).unwrap()));
    assert!(is_modifier(evdev_to_hid(29).unwrap()));
    assert!(is_modifier(evdev_to_hid(42).unwrap()));
}

#[test]
fn ascii_text_mapping() {
    assert_eq!(ascii_to_hid('a'), Some((Modifiers::none(), HidUsage(0x04))));
    assert_eq!(ascii_to_hid('z'), Some((Modifiers::none(), HidUsage(0x1D))));
    assert_eq!(ascii_to_hid('A'), Some((Modifiers::left_shift(), HidUsage(0x04))));
    assert_eq!(ascii_to_hid('0'), Some((Modifiers::none(), HidUsage(0x27))));
    assert_eq!(ascii_to_hid('!'), Some((Modifiers::left_shift(), HidUsage(0x1E))));
    assert_eq!(ascii_to_hid(' '), Some((Modifiers::none(), HidUsage(0x2C))));
    assert_eq!(ascii_to_hid('\n'), Some((Modifiers::none(), HidUsage(0x28))));
    assert_eq!(ascii_to_hid('?'), Some((Modifiers::left_shift(), HidUsage(0x38))));
    assert_eq!(ascii_to_hid('\u{20ac}'), None);
}

#[test]
fn basic_sentence_maps_fully() {
    for c in "Hello, World! 123".chars() {
        assert!(ascii_to_hid(c).is_some(), "no mapping for {c:?}");
    }
}

#[test]
fn every_printable_ascii_character_maps() {
    for b in 0x20u8..=0x7E {
        assert!(ascii_to_hid(b as char).is_some(), "no mapping for {b:#x}");
    }
    assert!(ascii_to_hid('\t').is_some());
    assert!(ascii_to_hid('\r').is_none());
}
