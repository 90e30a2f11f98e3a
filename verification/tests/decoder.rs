use ut61e::{decode, DecodeError, Decimal, Frame, Mode, RangeLabel, Unit, CR, LF};

/// Builds a frame from its fields: the low bits carry the codes and
/// flags, the high bits are set as the meter sends them (ASCII-like).
fn build_frame(range: u8, digits: [u8; 5], mode: u8, b7: u8, b8: u8, b9: u8, b10: u8, b11: u8) -> Frame {
    let bytes = vec![
        0x30 | range,
        0x30 | digits[0],
        0x30 | digits[1],
        0x30 | digits[2],
        0x30 | digits[3],
        0x30 | digits[4],
        0x30 | mode,
        0x30 | b7,
        0x30 | b8,
        0x30 | b9,
        0x30 | b10,
        0x30 | b11,
        CR,
        LF,
    ];
    Frame::new(bytes).expect("fourteen bytes make a frame")
}

fn to_f64(d: &Decimal) -> f64 {
    let magnitude = d.mantissa as f64 * 10f64.powi(d.exp10);
    if d.negative {
        -magnitude
    } else {
        magnitude
    }
}

const MODE_VOLTAGE: u8 = 11;
const MODE_RESISTANCE: u8 = 3;
const MODE_TEMPERATURE: u8 = 4;
const FLAG_PERCENT: u8 = 0x08;
const FLAG_NEG: u8 = 0x04;
const FLAG_DC: u8 = 0x08;
const FLAG_HZ: u8 = 0x01;

#[test]
fn digit_decoding_round_trip() {
    // Digit nibbles [0,0,1,2,3] on the 220.00 V range (scale 0.01):
    // base value 123, scaled value 1.23.
    let frame = build_frame(2, [0, 0, 1, 2, 3], MODE_VOLTAGE, 0, 0, 0, FLAG_DC, 0);
    let reading = decode(&frame).expect("a known mode and range decode");
    assert_eq!(reading.val, Decimal { negative: false, mantissa: 123, exp10: -2 });
    assert!((to_f64(&reading.val) - 1.23).abs() < 1e-12);
    assert_eq!(reading.mode, Mode::Voltage);
    assert_eq!(reading.mode.label(), "V/mV");
    assert_eq!(reading.range, RangeLabel::R220_00);
    assert_eq!(reading.range.label(), "220.00");
    assert_eq!(reading.unit.label(), "V");
}

#[test]
fn negative_sign_follows_the_minus_bit() {
    let frame = build_frame(2, [0, 0, 1, 2, 3], MODE_VOLTAGE, FLAG_NEG, 0, 0, FLAG_DC, 0);
    let reading = decode(&frame).expect("a known mode and range decode");
    assert!(reading.minus);
    assert_eq!(reading.val, Decimal { negative: true, mantissa: 123, exp10: -2 });
    assert!((to_f64(&reading.val) + 1.23).abs() < 1e-12);
}

#[test]
fn millivolts_normalize_to_volts() {
    // 220.00 mV range (code 4, scale 0.01), digits 2,2,0,0,0: the
    // value 220.00 mV normalizes to 0.220 V.
    let frame = build_frame(4, [2, 2, 0, 0, 0], MODE_VOLTAGE, 0, 0, 0, FLAG_DC, 0);
    let reading = decode(&frame).expect("a known mode and range decode");
    assert_eq!(reading.unit, Unit::MilliVolt);
    assert_eq!(reading.unit.label(), "mV");
    assert!((to_f64(&reading.val) - 220.0).abs() < 1e-9);
    assert_eq!(reading.norm_unit, Unit::Volt);
    assert_eq!(reading.norm_unit.label(), "V");
    assert_eq!(reading.norm_val, Decimal { negative: false, mantissa: 22000, exp10: -5 });
    assert!((to_f64(&reading.norm_val) - 0.220).abs() < 1e-12);
}

#[test]
fn megaohms_normalize_to_ohms() {
    // 2.2000 MOhm range (code 4, scale 0.0001), digits 2,2,0,0,0: the
    // value 2.2 MOhm normalizes to 2_200_000 Ohm.
    let frame = build_frame(4, [2, 2, 0, 0, 0], MODE_RESISTANCE, 0, 0, 0, 0, 0);
    let reading = decode(&frame).expect("a known mode and range decode");
    assert_eq!(reading.unit.label(), "MOhm");
    assert!((to_f64(&reading.val) - 2.2).abs() < 1e-12);
    assert_eq!(reading.norm_unit.label(), "Ohm");
    assert_eq!(reading.norm_val, Decimal { negative: false, mantissa: 22000, exp10: 2 });
    assert!((to_f64(&reading.norm_val) - 2_200_000.0).abs() < 1e-6);
}

#[test]
fn percent_passes_through_normalization() {
    // Percent range (flag set), digits 1,0,0,0,0 at scale 0.01: 100.0
    // percent stays 100.0 percent.
    let frame = build_frame(0, [1, 0, 0, 0, 0], MODE_VOLTAGE, FLAG_PERCENT, 0, 0, 0, 0);
    let reading = decode(&frame).expect("the percent table has this code");
    assert_eq!(reading.unit, Unit::Percent);
    assert_eq!(reading.unit.label(), "%");
    assert_eq!(reading.norm_unit, Unit::Percent);
    assert_eq!(reading.norm_val, reading.val);
    assert!((to_f64(&reading.norm_val) - 100.0).abs() < 1e-12);
}

#[test]
fn decode_is_pure() {
    let frame = build_frame(2, [9, 8, 7, 6, 5], MODE_VOLTAGE, FLAG_NEG, 0, 0, FLAG_DC, 0);
    let first = decode(&frame);
    let second = decode(&frame);
    assert_eq!(first, second);
    let again = build_frame(2, [9, 8, 7, 6, 5], MODE_VOLTAGE, FLAG_NEG, 0, 0, FLAG_DC, 0);
    assert_eq!(first, decode(&again));
}

#[test]
fn unknown_mode_codes_are_rejected() {
    for code in [7u8, 8, 10, 12] {
        let frame = build_frame(0, [0, 0, 0, 0, 0], code, 0, 0, 0, 0, 0);
        assert_eq!(decode(&frame), Err(DecodeError::UnknownMode));
    }
}

#[test]
fn mode_without_table_is_rejected() {
    // Temperature carries no range table, and neither override flag
    // is set.
    let frame = build_frame(0, [0, 0, 0, 0, 0], MODE_TEMPERATURE, 0, 0, 0, 0, 0);
    assert_eq!(decode(&frame), Err(DecodeError::NoRangeTable));
}

#[test]
fn unknown_range_codes_are_rejected() {
    // The voltage table ends at code 4.
    let frame = build_frame(5, [0, 0, 0, 0, 0], MODE_VOLTAGE, 0, 0, 0, FLAG_DC, 0);
    assert_eq!(decode(&frame), Err(DecodeError::UnknownRange));
    // The percent table has no entries at codes 2 and 7.
    let frame = build_frame(2, [0, 0, 0, 0, 0], MODE_VOLTAGE, FLAG_PERCENT, 0, 0, 0, 0);
    assert_eq!(decode(&frame), Err(DecodeError::UnknownRange));
}

#[test]
fn percent_flag_overrides_the_mode_table() {
    // Temperature has no table of its own, but the percent flag
    // resolves the range against the percent table anyway.
    let frame = build_frame(0, [5, 0, 0, 0, 0], MODE_TEMPERATURE, FLAG_PERCENT, 0, 0, 0, 0);
    let reading = decode(&frame).expect("the percent flag takes priority");
    assert!(reading.percent);
    assert_eq!(reading.unit, Unit::Percent);
    assert_eq!(reading.mode, Mode::Temperature);
    // The same holds for a mode that has its own table.
    let frame = build_frame(0, [5, 0, 0, 0, 0], MODE_VOLTAGE, FLAG_PERCENT, 0, 0, 0, 0);
    let reading = decode(&frame).expect("the percent flag takes priority");
    assert_eq!(reading.unit, Unit::Percent);
}

#[test]
fn hz_flag_selects_the_frequency_table() {
    // The frequency flag, without percent, resolves against the
    // frequency table whatever the mode's own table is.
    let frame = build_frame(0, [2, 2, 0, 0, 0], MODE_VOLTAGE, 0, 0, 0, FLAG_HZ, 0);
    let reading = decode(&frame).expect("the frequency table has this code");
    assert!(reading.hz);
    assert_eq!(reading.unit, Unit::Hertz);
    assert_eq!(reading.range.label(), "220.00");
    // Percent beats the frequency flag when both are set.
    let frame = build_frame(0, [2, 2, 0, 0, 0], MODE_VOLTAGE, FLAG_PERCENT, 0, 0, FLAG_HZ, 0);
    let reading = decode(&frame).expect("the percent table has this code");
    assert_eq!(reading.unit, Unit::Percent);
}

#[test]
fn all_flags_are_extracted() {
    let frame = build_frame(
        0,
        [0, 0, 0, 0, 0],
        MODE_VOLTAGE,
        0x08 | 0x04 | 0x02 | 0x01,
        0x02,
        0x08 | 0x04 | 0x02,
        0x02,
        0x02,
    );
    let reading = decode(&frame).expect("the percent flag takes priority");
    assert!(reading.percent);
    assert!(reading.minus);
    assert!(reading.low_battery);
    assert!(reading.ol);
    assert!(reading.delta);
    assert!(reading.ul);
    assert!(reading.max);
    assert!(reading.min);
    assert!(!reading.dc);
    assert!(!reading.ac);
    assert!(reading.auto);
    assert!(!reading.hz);
    assert!(reading.hold);
}

#[test]
fn ampere_range_decodes() {
    // Mode 0: the ampere jack, 10.000 A range at scale 0.001.
    let frame = build_frame(0, [1, 2, 3, 4, 5], 0, 0, 0, 0, FLAG_DC, 0);
    let reading = decode(&frame).expect("a known mode and range decode");
    assert_eq!(reading.mode, Mode::Current);
    assert_eq!(reading.mode.label(), "A");
    assert_eq!(reading.range.label(), "10.000");
    assert_eq!(reading.unit, Unit::Amp);
    assert_eq!(reading.val, Decimal { negative: false, mantissa: 12345, exp10: -3 });
    assert!((to_f64(&reading.val) - 12.345).abs() < 1e-12);
}

#[test]
fn framed_stream_decodes_end_to_end() {
    let mut framer = ut61e::Framer::new();
    let frame_bytes = vec![
        0x34, 0x32, 0x32, 0x30, 0x30, 0x30, 0x3B, 0x30, 0x30, 0x30, 0x38, 0x30, CR, LF,
    ];
    // Noise, a spurious line feed, then the real frame.
    let mut stream = vec![0x55, 0x56, LF];
    stream.extend_from_slice(&frame_bytes);
    let mut decoded = Vec::new();
    for &b in &stream {
        if let Some(frame) = framer.push(b) {
            decoded.push(decode(&frame).expect("a known mode and range decode"));
        }
    }
    assert_eq!(decoded.len(), 1);
    assert_eq!(decoded[0].unit.label(), "mV");
    assert_eq!(decoded[0].norm_unit.label(), "V");
    assert!((to_f64(&decoded[0].norm_val) - 0.220).abs() < 1e-12);
}
