use vstd::prelude::*;

verus! {

use crate::frame::{Frame, FRAME_LEN};
use crate::tables::{meas_type, range_entry, spec_meas_type, spec_range_entry, MeasType, Mode,
    RangeEntry, RangeFamily, RangeLabel, Unit};
use crate::value::{normalize_val, spec_canonical_unit, spec_norm_shift, Decimal};

/// Significant bits of a digit byte.
pub const DIGIT_MASK: u8 = 0x0F;

/// Percent flag, byte 7 bit 3.
pub const FLAG_PERCENT: u8 = 0x08;

/// Minus flag, byte 7 bit 2.
pub const FLAG_NEG: u8 = 0x04;

/// Low-battery flag, byte 7 bit 1.
pub const FLAG_LOW_BAT: u8 = 0x02;

/// Overload flag, byte 7 bit 0.
pub const FLAG_OL: u8 = 0x01;

/// Relative (delta) mode flag, byte 8 bit 1.
pub const FLAG_DELTA: u8 = 0x02;

/// Under-range flag, byte 9 bit 3.
pub const FLAG_UL: u8 = 0x08;

/// Maximum-hold flag, byte 9 bit 2.
pub const FLAG_MAX: u8 = 0x04;

/// Minimum-hold flag, byte 9 bit 1.
pub const FLAG_MIN: u8 = 0x02;

/// Direct-current flag, byte 10 bit 3.
pub const FLAG_DC: u8 = 0x08;

/// Alternating-current flag, byte 10 bit 2.
pub const FLAG_AC: u8 = 0x04;

/// Auto-range flag, byte 10 bit 1.
pub const FLAG_AUTO: u8 = 0x02;

/// Frequency-display flag, byte 10 bit 0.
pub const FLAG_HZ: u8 = 0x01;

/// Hold flag, byte 11 bit 1.
pub const FLAG_HOLD: u8 = 0x02;

/// Why a structurally unrecognized frame fails to decode. Every kind
/// is terminal for that single frame only: the caller discards the
/// frame and keeps reading.
#[derive(Clone, Copy, Debug, PartialEq, Eq, Structural)]
pub enum DecodeError {
    /// The 4-bit measurement-type code has no table entry.
    UnknownMode,
    /// The resolved mode carries no range table, and neither the
    /// percent nor the frequency override applies.
    NoRangeTable,
    /// The 3-bit range code has no entry in the selected range table.
    UnknownRange,
}

/// The decoded output: status flags, resolved mode, range and unit,
/// the signed scaled value, and the value normalized to a canonical
/// unit. A reading is a plain immutable value, independent of the
/// frame it came from.
#[derive(Clone, Copy, Debug, PartialEq, Eq, Structural)]
pub struct Reading {
    /// Duty-cycle display (percent) flag.
    pub percent: bool,
    /// Negative-sign flag.
    pub minus: bool,
    /// Low-battery flag.
    pub low_battery: bool,
    /// Overload; also an open diode under test or reversed polarity.
    pub ol: bool,
    /// Relative (delta) mode.
    pub delta: bool,
    /// Under-range: the frequency or duty cycle is below the range's
    /// reliable floor.
    pub ul: bool,
    /// Maximum hold.
    pub max: bool,
    /// Minimum hold.
    pub min: bool,
    /// Direct current.
    pub dc: bool,
    /// Alternating current.
    pub ac: bool,
    /// Auto-ranging.
    pub auto: bool,
    /// Frequency display.
    pub hz: bool,
    /// Display hold.
    pub hold: bool,
    /// Resolved measurement mode.
    pub mode: Mode,
    /// Display-range label of the resolved range entry.
    pub range: RangeLabel,
    /// Unit of the resolved range entry.
    pub unit: Unit,
    /// The five decoded digits, scaled by the range entry and signed
    /// by the minus flag.
    pub val: Decimal,
    /// `val` normalized to the canonical unit.
    pub norm_val: Decimal,
    /// The canonical unit `norm_val` is expressed in.
    pub norm_unit: Unit,
}

/// Whether a flag bit is set in a frame byte.
pub open spec fn spec_flag(byte: u8, mask: u8) -> bool {
    byte & mask != 0
}

/// The 4-bit measurement-type code of a frame.
pub open spec fn spec_mode_code(f: Seq<u8>) -> int {
    (f[6] & DIGIT_MASK) as int
}

/// The 3-bit range code of a frame.
pub open spec fn spec_range_code(f: Seq<u8>) -> int {
    (f[0] & 0x07) as int
}

/// The unsigned base value of a frame: the low nibbles of bytes 1
/// through 5 read as decimal digits, most significant first.
pub open spec fn spec_base_value(f: Seq<u8>) -> int {
    ((((f[1] & DIGIT_MASK) * 10 + (f[2] & DIGIT_MASK)) * 10 + (f[3] & DIGIT_MASK)) * 10 + (f[4]
        & DIGIT_MASK)) * 10 + (f[5] & DIGIT_MASK)
}

/// The range table a frame resolves its range code against, given the
/// table of its resolved mode: the percent flag takes priority, then
/// the frequency flag, then the mode's own table.
pub open spec fn spec_family(f: Seq<u8>, mode_family: Option<RangeFamily>) -> Option<
    RangeFamily,
> {
    if spec_flag(f[7], FLAG_PERCENT) {
        Some(RangeFamily::Percent)
    } else if spec_flag(f[10], FLAG_HZ) {
        Some(RangeFamily::Frequency)
    } else {
        mode_family
    }
}

/// The reading of a frame whose mode and range entry resolved.
pub open spec fn spec_reading(f: Seq<u8>, mt: MeasType, e: RangeEntry) -> Reading {
    let val = Decimal {
        negative: spec_flag(f[7], FLAG_NEG),
        mantissa: spec_base_value(f) as u32,
        exp10: e.exp10,
    };
    Reading {
        percent: spec_flag(f[7], FLAG_PERCENT),
        minus: spec_flag(f[7], FLAG_NEG),
        low_battery: spec_flag(f[7], FLAG_LOW_BAT),
        ol: spec_flag(f[7], FLAG_OL),
        delta: spec_flag(f[8], FLAG_DELTA),
        ul: spec_flag(f[9], FLAG_UL),
        max: spec_flag(f[9], FLAG_MAX),
        min: spec_flag(f[9], FLAG_MIN),
        dc: spec_flag(f[10], FLAG_DC),
        ac: spec_flag(f[10], FLAG_AC),
        auto: spec_flag(f[10], FLAG_AUTO),
        hz: spec_flag(f[10], FLAG_HZ),
        hold: spec_flag(f[11], FLAG_HOLD),
        mode: mt.mode,
        range: e.label,
        unit: e.unit,
        val,
        norm_val: Decimal {
            negative: val.negative,
            mantissa: val.mantissa,
            exp10: (e.exp10 + spec_norm_shift(e.unit)) as i32,
        },
        norm_unit: spec_canonical_unit(e.unit),
    }
}

/// What decoding a frame yields: the reading, or the first failing
/// resolution step — unknown mode, then missing range table, then
/// unknown range code.
pub open spec fn spec_decode(f: Seq<u8>) -> Result<Reading, DecodeError> {
    match spec_meas_type(spec_mode_code(f)) {
        None => Err(DecodeError::UnknownMode),
        Some(mt) => match spec_family(f, mt.family) {
            None => Err(DecodeError::NoRangeTable),
            Some(family) => match spec_range_entry(family, spec_range_code(f)) {
                None => Err(DecodeError::UnknownRange),
                Some(e) => Ok(spec_reading(f, mt, e)),
            },
        },
    }
}

/// A low nibble is a value below 16.
proof fn lemma_nibble_bound(b: u8)
    by (bit_vector)
    ensures
        b & 0x0F < 16,
{
}

/// A low 3-bit field is a value below 8.
proof fn lemma_low3_bound(b: u8)
    by (bit_vector)
    ensures
        b & 0x07 < 8,
{
}

/// Decodes one complete frame into a reading, or reports that the
/// frame is structurally unrecognized.
///
/// Decoding is a pure function of the frame's bytes: the result is
/// exactly `spec_decode(frame@)`, so equal frames always decode to
/// equal readings, and a frame fails exactly when one of its three
/// resolution steps finds no table entry.
pub fn decode(frame: &Frame) -> (r: Result<Reading, DecodeError>)
    requires
        frame.wf(),
    ensures
        r == spec_decode(frame@),
{
    let bytes = frame.bytes();

    let percent = bytes[7] & FLAG_PERCENT != 0;
    let minus = bytes[7] & FLAG_NEG != 0;
    let low_battery = bytes[7] & FLAG_LOW_BAT != 0;
    let ol = bytes[7] & FLAG_OL != 0;
    let delta = bytes[8] & FLAG_DELTA != 0;
    let ul = bytes[9] & FLAG_UL != 0;
    let max = bytes[9] & FLAG_MAX != 0;
    let min = bytes[9] & FLAG_MIN != 0;
    let dc = bytes[10] & FLAG_DC != 0;
    let ac = bytes[10] & FLAG_AC != 0;
    let auto = bytes[10] & FLAG_AUTO != 0;
    let hz = bytes[10] & FLAG_HZ != 0;
    let hold = bytes[11] & FLAG_HOLD != 0;

    let mode_code = bytes[6] & DIGIT_MASK;
    proof {
        lemma_nibble_bound(bytes@[6]);
    }
    let mt = match meas_type(mode_code) {
        Some(mt) => mt,
        None => {
            return Err(DecodeError::UnknownMode);
        },
    };

    let range_code = bytes[0] & 0x07;
    proof {
        lemma_low3_bound(bytes@[0]);
    }
    let family = if percent {
        RangeFamily::Percent
    } else if hz {
        RangeFamily::Frequency
    } else {
        match mt.family {
            Some(family) => family,
            None => {
                return Err(DecodeError::NoRangeTable);
            },
        }
    };
    let e = match range_entry(family, range_code) {
        Some(e) => e,
        None => {
            return Err(DecodeError::UnknownRange);
        },
    };

    let mut base: u32 = 0;
    proof {
        lemma_nibble_bound(bytes@[1]);
        lemma_nibble_bound(bytes@[2]);
        lemma_nibble_bound(bytes@[3]);
        lemma_nibble_bound(bytes@[4]);
        lemma_nibble_bound(bytes@[5]);
    }
    base = base * 10 + (bytes[1] & DIGIT_MASK) as u32;
    base = base * 10 + (bytes[2] & DIGIT_MASK) as u32;
    base = base * 10 + (bytes[3] & DIGIT_MASK) as u32;
    base = base * 10 + (bytes[4] & DIGIT_MASK) as u32;
    base = base * 10 + (bytes[5] & DIGIT_MASK) as u32;
    proof {
        assert(base == spec_base_value(frame@));
    }

    let val = Decimal { negative: minus, mantissa: base, exp10: e.exp10 };
    proof {
        crate::tables::lemma_range_entry_wf(family, range_code as int);
        crate::value::lemma_norm_shift_bounds(e.unit);
    }
    let (norm_val, norm_unit) = normalize_val(val, e.unit);

    Ok(
        Reading {
            percent,
            minus,
            low_battery,
            ol,
            delta,
            ul,
            max,
            min,
            dc,
            ac,
            auto,
            hz,
            hold,
            mode: mt.mode,
            range: e.label,
            unit: e.unit,
            val,
            norm_val,
            norm_unit,
        },
    )
}

/// The percent flag takes priority over the mode's own range table:
/// a frame with a known measurement type and the percent flag set
/// resolves its range against the percent table, whatever table — if
/// any — its mode carries, and every reading it yields is in percent.
pub proof fn lemma_percent_flag_priority(f: Seq<u8>)
    requires
        f.len() == FRAME_LEN,
        spec_flag(f[7], FLAG_PERCENT),
        spec_meas_type(spec_mode_code(f)) is Some,
    ensures
        spec_meas_type(spec_mode_code(f)) matches Some(mt) ==> spec_family(f, mt.family)
            == Some(RangeFamily::Percent),
        spec_decode(f) is Ok <==> spec_range_entry(RangeFamily::Percent, spec_range_code(f))
            is Some,
        spec_decode(f) matches Ok(r) ==> r.unit == Unit::Percent && r.norm_unit == Unit::Percent,
{
    let x = f[0];
    assert(x & 0x07 < 8) by (bit_vector);
}

} // verus!
