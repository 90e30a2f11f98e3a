use vstd::prelude::*;

verus! {

use crate::tables::Unit;

/// A signed decimal number: `mantissa * 10 ^ exp10`, negated when
/// `negative` is set.
///
/// Every value the decoder produces is a five-digit integer scaled by
/// a power of ten, so this exact form carries readings without any
/// rounding; the scale factors of the range tables and the
/// normalization multipliers are both powers of ten.
#[derive(Clone, Copy, Debug, PartialEq, Eq, Structural)]
pub struct Decimal {
    pub negative: bool,
    pub mantissa: u32,
    /// Base-ten exponent of the scale.
    pub exp10: i32,
}

/// The canonical unit each unit normalizes to: volts, amperes, ohms,
/// farads and hertz; percent and the canonical units themselves pass
/// through unchanged.
pub open spec fn spec_canonical_unit(unit: Unit) -> Unit {
    match unit {
        Unit::Volt => Unit::Volt,
        Unit::MilliVolt => Unit::Volt,
        Unit::Amp => Unit::Amp,
        Unit::MilliAmp => Unit::Amp,
        Unit::MicroAmp => Unit::Amp,
        Unit::Ohm => Unit::Ohm,
        Unit::KiloOhm => Unit::Ohm,
        Unit::MegaOhm => Unit::Ohm,
        Unit::NanoFarad => Unit::Farad,
        Unit::MicroFarad => Unit::Farad,
        Unit::MilliFarad => Unit::Farad,
        Unit::Farad => Unit::Farad,
        Unit::Hertz => Unit::Hertz,
        Unit::KiloHertz => Unit::Hertz,
        Unit::MegaHertz => Unit::Hertz,
        Unit::Percent => Unit::Percent,
    }
}

/// Base-ten exponent of the normalization multiplier of each unit:
/// a value in `unit` times `10 ^ spec_norm_shift(unit)` is the same
/// value in the canonical unit.
pub open spec fn spec_norm_shift(unit: Unit) -> int {
    match unit {
        Unit::Volt => 0,
        Unit::MilliVolt => -3,
        Unit::Amp => 0,
        Unit::MilliAmp => -3,
        Unit::MicroAmp => -6,
        Unit::Ohm => 0,
        Unit::KiloOhm => 3,
        Unit::MegaOhm => 6,
        Unit::NanoFarad => -9,
        Unit::MicroFarad => -6,
        Unit::MilliFarad => -3,
        Unit::Farad => 0,
        Unit::Hertz => 0,
        Unit::KiloHertz => 3,
        Unit::MegaHertz => 6,
        Unit::Percent => 0,
    }
}

/// The normalization multiplier's exponent is small.
pub proof fn lemma_norm_shift_bounds(unit: Unit)
    ensures
        -9 <= spec_norm_shift(unit) <= 6,
{
}

/// Normalizes a measured value to standard units: voltage to volts,
/// current to amperes, resistance to ohms, capacitance to farads and
/// frequency to hertz; percent and already-canonical units are not
/// changed. The sign and the digits stay exactly as they are; only
/// the scale exponent moves, by the fixed multiplier of the unit.
pub fn normalize_val(val: Decimal, unit: Unit) -> (r: (Decimal, Unit))
    requires
        i32::MIN <= val.exp10 + spec_norm_shift(unit) <= i32::MAX,
    ensures
        r.0.negative == val.negative,
        r.0.mantissa == val.mantissa,
        r.0.exp10 == val.exp10 + spec_norm_shift(unit),
        r.1 == spec_canonical_unit(unit),
{
    let shift: i32 = match unit {
        Unit::Volt => 0,
        Unit::MilliVolt => -3,
        Unit::Amp => 0,
        Unit::MilliAmp => -3,
        Unit::MicroAmp => -6,
        Unit::Ohm => 0,
        Unit::KiloOhm => 3,
        Unit::MegaOhm => 6,
        Unit::NanoFarad => -9,
        Unit::MicroFarad => -6,
        Unit::MilliFarad => -3,
        Unit::Farad => 0,
        Unit::Hertz => 0,
        Unit::KiloHertz => 3,
        Unit::MegaHertz => 6,
        Unit::Percent => 0,
    };
    let canonical = match unit {
        Unit::Volt => Unit::Volt,
        Unit::MilliVolt => Unit::Volt,
        Unit::Amp => Unit::Amp,
        Unit::MilliAmp => Unit::Amp,
        Unit::MicroAmp => Unit::Amp,
        Unit::Ohm => Unit::Ohm,
        Unit::KiloOhm => Unit::Ohm,
        Unit::MegaOhm => Unit::Ohm,
        Unit::NanoFarad => Unit::Farad,
        Unit::MicroFarad => Unit::Farad,
        Unit::MilliFarad => Unit::Farad,
        Unit::Farad => Unit::Farad,
        Unit::Hertz => Unit::Hertz,
        Unit::KiloHertz => Unit::Hertz,
        Unit::MegaHertz => Unit::Hertz,
        Unit::Percent => Unit::Percent,
    };
    (Decimal { negative: val.negative, mantissa: val.mantissa, exp10: val.exp10 + shift }, canonical)
}

} // verus!
