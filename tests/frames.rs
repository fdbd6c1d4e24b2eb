use multimeter::{DecodeError, MeterState, Mode};

const KNOWN: [(u8, Mode); 19] = [
    (0x00, Mode::DcVoltage),
    (0x01, Mode::AcVoltage),
    (0x02, Mode::DcMicroAmpere),
    (0x03, Mode::DcMilliAmpere),
    (0x04, Mode::DcAmpere),
    (0x05, Mode::AcMicroAmpere),
    (0x06, Mode::AcMilliAmpere),
    (0x07, Mode::AcAmpere),
    (0x08, Mode::Resistance),
    (0x09, Mode::Capacitance),
    (0x10, Mode::FrequencySeconds),
    (0x0a, Mode::FrequencyHz),
    (0x0d, Mode::FrequencyPercent),
    (0x13, Mode::Diode),
    (0x14, Mode::Continuinty),
    (0x15, Mode::CurrentGain),
    (0x16, Mode::Logic),
    (0x17, Mode::PowerLevel),
    (0x19, Mode::Tempature),
];

/// A digit byte that shows `0` with its point clear.
const ZERO: u8 = 0b1101_0111;

fn glyphs(st: &MeterState) -> String {
    st.seven_segments.iter().map(|s| s.to_string()).collect()
}

fn text(st: &MeterState) -> String {
    st.text().into_iter().collect()
}

#[test]
fn mode_table_lookup() {
    for (code, mode) in KNOWN {
        assert_eq!(Mode::from_u8(code), Some(mode));
    }
    assert_eq!(Mode::from_u8(0x0b), None);
    assert_eq!(Mode::from_u8(0x18), None);
    assert_eq!(Mode::from_u8(0xFF), None);
}

#[test]
fn every_known_mode_decodes_whatever_the_rest() {
    for (code, mode) in KNOWN {
        for fill in [0x00u8, 0x5A, 0xFF] {
            let st = MeterState::new([code, fill, fill, fill, fill, fill, fill, fill]).unwrap();
            assert_eq!(st.mode, mode);
        }
    }
}

#[test]
fn unknown_modes_fail_with_their_byte() {
    let known: Vec<u8> = KNOWN.iter().map(|k| k.0).collect();
    for b in 0u8..=255 {
        let r = MeterState::new([b, 0, 0, ZERO, ZERO, ZERO, ZERO, 0]);
        if known.contains(&b) {
            assert!(r.is_ok());
        } else {
            assert_eq!(r.unwrap_err(), DecodeError::UnrecognizedMode(b));
        }
    }
    for b in [0xFFu8, 0x11, 0x12] {
        assert_eq!(
            MeterState::new([b, 0, 0, 0, 0, 0, 0, 0]).unwrap_err(),
            DecodeError::UnrecognizedMode(b)
        );
    }
}

#[test]
fn decoding_is_deterministic() {
    let frame = [0x08, 1, 2, 0x5D, ZERO, 0x9F, 0x3C, 7];
    let a = MeterState::new(frame).unwrap();
    let b = MeterState::new(frame).unwrap();
    assert_eq!(a.mode, b.mode);
    assert_eq!(a.dot_positions, b.dot_positions);
    for i in 0..4 {
        assert_eq!(a.seven_segments[i].segments, b.seven_segments[i].segments);
    }
    assert_eq!(
        MeterState::new([0x12, 0, 0, 0, 0, 0, 0, 0]).unwrap_err(),
        MeterState::new([0x12, 0, 0, 0, 0, 0, 0, 0]).unwrap_err()
    );
}

#[test]
fn alternating_byte_under_the_fixed_bit_order() {
    let b = 0b0111_1110;
    let st = MeterState::new([0x00, 0, 0, b, b, b, b, 0]).unwrap();
    assert_eq!(st.mode, Mode::DcVoltage);
    for s in st.seven_segments {
        assert_eq!(s.segments, [false, true, true, false, true, true, true]);
    }
    assert_eq!(glyphs(&st), "HHHH");
    assert_eq!(st.dot_positions, [true, true, true]);
}

#[test]
fn all_zeros_frame() {
    let st = MeterState::new([0x00, 0, 0, ZERO, ZERO, ZERO, ZERO, 0]).unwrap();
    assert_eq!(st.mode, Mode::DcVoltage);
    for s in st.seven_segments {
        assert_eq!(s.segments, [true, true, true, true, true, true, false]);
    }
    assert_eq!(glyphs(&st), "0000");
    assert_eq!(st.dot_positions, [false, false, false]);
    assert_eq!(text(&st), "0000");
}

#[test]
fn temperature_and_unknown_mode() {
    let st = MeterState::new([0x19, 0, 0, 0, 0, 0, 0, 0]).unwrap();
    assert_eq!(st.mode, Mode::Tempature);
    assert_eq!(glyphs(&st), "    ");
    assert_eq!(
        MeterState::new([0xFF, 0, 0, 0, 0, 0, 0, 0]).unwrap_err(),
        DecodeError::UnrecognizedMode(0xFF)
    );
}

#[test]
fn setting_point_bit_lights_first_point_only() {
    let before = MeterState::new([0x00, 0, 0, ZERO, ZERO, ZERO, ZERO, 0]).unwrap();
    let after = MeterState::new([0x00, 0, 0, ZERO, ZERO, ZERO | 0x08, ZERO, 0]).unwrap();
    assert!(!before.dot_positions[0]);
    assert!(after.dot_positions[0]);
    assert_eq!(before.seven_segments[1].to_string(), after.seven_segments[1].to_string());
    assert_eq!(before.seven_segments[1].segments, after.seven_segments[1].segments);
    assert_eq!(after.dot_positions[1..], before.dot_positions[1..]);
    assert_eq!(text(&after), "0.000");
}

#[test]
fn first_point_ignores_other_bits_of_its_byte() {
    for others in 0u8..=255 {
        let byte5 = others & !0x08;
        let clear = MeterState::new([0x00, 0, 0, 0, 0, byte5, 0, 0]).unwrap();
        let set = MeterState::new([0x00, 0, 0, 0, 0, byte5 | 0x08, 0, 0]).unwrap();
        assert!(!clear.dot_positions[0]);
        assert!(set.dot_positions[0]);
    }
}

#[test]
fn digits_come_from_bytes_six_down_to_three() {
    // 1, 2, 3, 4 from the most significant digit down; unused bytes filled.
    let one = 0b0101_0000;
    let two = 0b1011_0101;
    let three = 0b1111_0001;
    let four = 0b0111_0010;
    let st = MeterState::new([0x01, 0xFF, 0xFF, four, three | 0x08, two, one, 0xFF]).unwrap();
    assert_eq!(st.mode, Mode::AcVoltage);
    assert_eq!(glyphs(&st), "1234");
    assert_eq!(st.dot_positions, [false, true, false]);
    assert_eq!(text(&st), "12.34");
}

#[test]
fn text_of_every_point() {
    let st = MeterState::new([0x08, 0, 0, ZERO | 0x08, ZERO | 0x08, ZERO | 0x08, 0, 0]).unwrap();
    assert_eq!(text(&st), " .0.0.0");
}
