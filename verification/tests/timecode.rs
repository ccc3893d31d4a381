#![allow(non_snake_case)]

use sc_midi::{Rate, TimeCode};

#[test]
fn it_works() {
    assert_eq!(2 + 2, 4);
}

#[test]
fn test_display__where_default_is_created() {
    let target = TimeCode::default();

    let actual = target.render();

    assert_eq!(actual, "00:00:00:00")
}

#[test]
fn test_display__where_new_with_film() {
    let target = TimeCode::new(24, 59, 59, 23);

    let actual = target.render();

    assert_eq!(actual, "24:59:59:23")
}

#[test]
fn test_display__where_is_drop_frame() {
    let target = TimeCode::new(9, 8, 7, 6).at_rate(Rate::NTSCDropFrame);

    let actual = target.render();

    assert_eq!(actual, "09:08:07;06")
}

#[test]
fn test_update_from_event() {
    let mut target = TimeCode::default();

    target.update_from_event(0, 15);
    target.update_from_event(1, 1);
    target.update_from_event(2, 15);
    target.update_from_event(3, 3);
    target.update_from_event(4, 15);
    target.update_from_event(5, 3);
    target.update_from_event(6, 15);
    target.update_from_event(7, 7);

    let expected = TimeCode::new(31, 63, 63, 31).at_rate(Rate::NTSC);
    assert_eq!(target, expected)
}

#[test]
fn full_cycle_renders_without_drop_frame_separator() {
    let mut target = TimeCode::default();
    let nibbles: [u8; 8] = [15, 1, 15, 3, 15, 3, 15, 7];
    for (piece, nibble) in nibbles.iter().enumerate() {
        target.update_from_event(piece as u8, *nibble);
    }
    assert_eq!(target.render(), "31:63:63:31");
    assert_eq!(target, TimeCode::new(31, 63, 63, 31).at_rate(Rate::NTSC));
}

#[test]
fn full_cycle_overwrites_any_earlier_value() {
    let mut target = TimeCode::new(31, 63, 63, 31).at_rate(Rate::NTSC);
    // 01:02:03:04 at 25 frames per second.
    let nibbles: [u8; 8] = [4, 0, 3, 0, 2, 0, 1, 0b0010];
    for (piece, nibble) in nibbles.iter().enumerate() {
        target.update_from_event(piece as u8, *nibble);
    }
    assert_eq!(target, TimeCode::new(1, 2, 3, 4).at_rate(Rate::PAL));
    assert_eq!(target.render(), "01:02:03:04");
}

#[test]
fn default_is_zero_at_film_rate() {
    assert_eq!(TimeCode::default(), TimeCode::new(0, 0, 0, 0));
    assert_eq!(TimeCode::default(), TimeCode::new(0, 0, 0, 0).at_rate(Rate::Film));
    assert_ne!(TimeCode::default(), TimeCode::new(0, 0, 0, 0).at_rate(Rate::PAL));
}

#[test]
fn new_keeps_the_bits_of_each_field() {
    assert_eq!(TimeCode::new(0xFF, 0xFF, 0xFF, 0xFF), TimeCode::new(31, 63, 63, 31));
    assert_eq!(TimeCode::new(32, 64, 64, 32), TimeCode::new(0, 0, 0, 0));
    assert_eq!(TimeCode::new(33, 65, 66, 35), TimeCode::new(1, 1, 2, 3));
    assert_eq!(TimeCode::new(33, 65, 66, 35).render(), "01:01:02:03");
}

#[test]
fn at_rate_changes_the_rate_only() {
    let code = TimeCode::new(1, 2, 3, 4);
    assert_eq!(code.at_rate(Rate::Film), code);
    assert_eq!(code.at_rate(Rate::PAL).render(), "01:02:03:04");
    assert_eq!(code.at_rate(Rate::NTSC).render(), "01:02:03:04");
    assert_eq!(code.at_rate(Rate::NTSCDropFrame).render(), "01:02:03;04");
    assert_eq!(code.at_rate(Rate::NTSC).at_rate(Rate::Film), code);
}

#[test]
fn piece_above_seven_is_ignored() {
    let start = TimeCode::new(9, 8, 7, 6).at_rate(Rate::PAL);
    for piece in 8..=255u8 {
        let mut target = start;
        target.update_from_event(piece, 15);
        assert_eq!(target, start);
    }
}

#[test]
fn low_nibble_piece_keeps_the_upper_bits() {
    let mut target = TimeCode::new(0x15, 0x25, 0x35, 0x15);
    target.update_from_event(0, 0x0A);
    assert_eq!(target, TimeCode::new(0x15, 0x25, 0x35, 0x1A));
    target.update_from_event(2, 0x0B);
    assert_eq!(target, TimeCode::new(0x15, 0x25, 0x3B, 0x1A));
    target.update_from_event(4, 0x0C);
    assert_eq!(target, TimeCode::new(0x15, 0x2C, 0x3B, 0x1A));
    target.update_from_event(6, 0x0D);
    assert_eq!(target, TimeCode::new(0x1D, 0x2C, 0x3B, 0x1A));
}

#[test]
fn high_bits_piece_keeps_the_lower_nibble() {
    let mut target = TimeCode::new(0x15, 0x25, 0x35, 0x15);
    target.update_from_event(1, 0);
    assert_eq!(target, TimeCode::new(0x15, 0x25, 0x35, 0x05));
    target.update_from_event(3, 1);
    assert_eq!(target, TimeCode::new(0x15, 0x25, 0x15, 0x05));
    target.update_from_event(5, 3);
    assert_eq!(target, TimeCode::new(0x15, 0x35, 0x15, 0x05));
    target.update_from_event(7, 0);
    assert_eq!(target, TimeCode::new(0x05, 0x35, 0x15, 0x05));
}

#[test]
fn bits_that_a_piece_does_not_carry_are_ignored() {
    let mut target = TimeCode::default();
    target.update_from_event(0, 0xF3);
    assert_eq!(target, TimeCode::new(0, 0, 0, 3));
    target.update_from_event(1, 0xFE);
    assert_eq!(target, TimeCode::new(0, 0, 0, 3));
    target.update_from_event(1, 0xFF);
    assert_eq!(target, TimeCode::new(0, 0, 0, 0x13));
    target.update_from_event(3, 0xFE);
    assert_eq!(target, TimeCode::new(0, 0, 0x20, 0x13));
    target.update_from_event(5, 0x05);
    assert_eq!(target, TimeCode::new(0, 0x10, 0x20, 0x13));
    target.update_from_event(7, 0xF9);
    assert_eq!(target, TimeCode::new(0x10, 0x10, 0x20, 0x13));
}

#[test]
fn last_piece_selects_the_rate() {
    let rates = [Rate::Film, Rate::PAL, Rate::NTSCDropFrame, Rate::NTSC];
    for (selector, rate) in rates.iter().enumerate() {
        let mut target = TimeCode::new(1, 2, 3, 4).at_rate(Rate::NTSC);
        target.update_from_event(7, (selector as u8) << 1);
        assert_eq!(target, TimeCode::new(1, 2, 3, 4).at_rate(*rate));
        let mut target = TimeCode::new(1, 2, 3, 4);
        target.update_from_event(7, ((selector as u8) << 1) | 1);
        assert_eq!(target, TimeCode::new(17, 2, 3, 4).at_rate(*rate));
    }
}

#[test]
fn other_pieces_leave_the_rate() {
    for piece in 0..7u8 {
        let mut target = TimeCode::default().at_rate(Rate::NTSCDropFrame);
        target.update_from_event(piece, 0b0110);
        let text = target.render();
        assert_eq!(text.chars().nth(8), Some(';'));
    }
}

#[test]
fn rate_from_event_reads_bits_one_and_two() {
    assert_eq!(Rate::from_event(0b0000), Some(Rate::Film));
    assert_eq!(Rate::from_event(0b0010), Some(Rate::PAL));
    assert_eq!(Rate::from_event(0b0100), Some(Rate::NTSCDropFrame));
    assert_eq!(Rate::from_event(0b0110), Some(Rate::NTSC));
    assert_eq!(Rate::from_event(0b0001), Some(Rate::Film));
    assert_eq!(Rate::from_event(0b0111), Some(Rate::NTSC));
    assert_eq!(Rate::from_event(0b1011), Some(Rate::PAL));
    assert_eq!(Rate::from_event(0xFD), Some(Rate::NTSCDropFrame));
    for data in 0..=255u8 {
        assert!(Rate::from_event(data).is_some());
    }
}

#[test]
fn render_pads_each_field_to_two_digits() {
    assert_eq!(TimeCode::new(0, 0, 0, 9).render(), "00:00:00:09");
    assert_eq!(TimeCode::new(0, 0, 10, 0).render(), "00:00:10:00");
    assert_eq!(TimeCode::new(1, 60, 0, 0).render(), "01:60:00:00");
    assert_eq!(TimeCode::new(31, 63, 63, 31).at_rate(Rate::NTSCDropFrame).render(), "31:63:63;31");
}
