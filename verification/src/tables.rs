use vstd::prelude::*;

verus! {

/// Measurement mode of the meter, the closed set of entries of the
/// measurement-type table.
#[derive(Clone, Copy, Debug, PartialEq, Eq, Structural)]
pub enum Mode {
    /// Current on the ampere jack.
    Current,
    /// Diode test.
    Diode,
    /// Frequency or duty cycle.
    Frequency,
    /// Resistance.
    Resistance,
    /// Temperature.
    Temperature,
    /// Continuity buzzer.
    Buzzer,
    /// Capacitance.
    Capacitance,
    /// Voltage.
    Voltage,
    /// Current on the microampere jack.
    MicroCurrent,
    /// Power adapter input.
    Adapter,
    /// Current on the milliampere jack.
    MilliCurrent,
}

/// Measurement unit of a range entry, the closed set of unit labels
/// the range tables carry.
#[derive(Clone, Copy, Debug, PartialEq, Eq, Structural)]
pub enum Unit {
    Volt,
    MilliVolt,
    Amp,
    MilliAmp,
    MicroAmp,
    Ohm,
    KiloOhm,
    MegaOhm,
    NanoFarad,
    MicroFarad,
    MilliFarad,
    /// Canonical unit of capacitance; a normalization target only,
    /// never a range-table entry's own unit.
    Farad,
    Hertz,
    KiloHertz,
    MegaHertz,
    Percent,
}

/// Display-range label of a range entry: the full-scale reading as
/// the meter shows it, named here by its digits.
#[derive(Clone, Copy, Debug, PartialEq, Eq, Structural)]
pub enum RangeLabel {
    /// `2.2000`
    R2_2000,
    /// `22.000`
    R22_000,
    /// `220.00`
    R220_00,
    /// `1000.0`
    R1000_0,
    /// `2200.0`
    R2200_0,
    /// `10.000`
    R10_000,
    /// `100.0`
    R100_0,
}

/// One of the range tables, one per measurement family.
#[derive(Clone, Copy, Debug, PartialEq, Eq, Structural)]
pub enum RangeFamily {
    Voltage,
    Resistance,
    Capacitance,
    Frequency,
    MicroCurrent,
    MilliCurrent,
    Current,
    Percent,
}

/// One entry of a range table: the display-range label, the unit, and
/// the scale factor `10 ^ exp10` that turns the five decoded digits
/// into the displayed value.
#[derive(Clone, Copy, Debug, PartialEq, Eq, Structural)]
pub struct RangeEntry {
    pub label: RangeLabel,
    pub unit: Unit,
    /// Base-ten exponent of the scale factor; the factor itself,
    /// `10 ^ exp10`, is strictly positive.
    pub exp10: i32,
}

/// One entry of the measurement-type table: the mode and, optionally,
/// the range table the mode resolves its range code against.
#[derive(Clone, Copy, Debug, PartialEq, Eq, Structural)]
pub struct MeasType {
    pub mode: Mode,
    pub family: Option<RangeFamily>,
}

impl Mode {
    /// The mode label as the meter documentation writes it.
    pub open spec fn spec_label(self) -> Seq<char> {
        match self {
            Mode::Current => "A"@,
            Mode::Diode => "Diode"@,
            Mode::Frequency => "Hz/%"@,
            Mode::Resistance => "Ohm"@,
            Mode::Temperature => "deg"@,
            Mode::Buzzer => "Buzzer"@,
            Mode::Capacitance => "Cap"@,
            Mode::Voltage => "V/mV"@,
            Mode::MicroCurrent => "uA"@,
            Mode::Adapter => "ADP"@,
            Mode::MilliCurrent => "mA"@,
        }
    }

    /// The mode label as the meter documentation writes it.
    pub fn label(&self) -> (r: &'static str)
        ensures
            r@ == self.spec_label(),
    {
        match self {
            Mode::Current => "A",
            Mode::Diode => "Diode",
            Mode::Frequency => "Hz/%",
            Mode::Resistance => "Ohm",
            Mode::Temperature => "deg",
            Mode::Buzzer => "Buzzer",
            Mode::Capacitance => "Cap",
            Mode::Voltage => "V/mV",
            Mode::MicroCurrent => "uA",
            Mode::Adapter => "ADP",
            Mode::MilliCurrent => "mA",
        }
    }
}

impl Unit {
    /// The unit label as the meter documentation writes it.
    pub open spec fn spec_label(self) -> Seq<char> {
        match self {
            Unit::Volt => "V"@,
            Unit::MilliVolt => "mV"@,
            Unit::Amp => "A"@,
            Unit::MilliAmp => "mA"@,
            Unit::MicroAmp => "uA"@,
            Unit::Ohm => "Ohm"@,
            Unit::KiloOhm => "kOhm"@,
            Unit::MegaOhm => "MOhm"@,
            Unit::NanoFarad => "nF"@,
            Unit::MicroFarad => "uF"@,
            Unit::MilliFarad => "mF"@,
            Unit::Farad => "F"@,
            Unit::Hertz => "Hz"@,
            Unit::KiloHertz => "kHz"@,
            Unit::MegaHertz => "MHz"@,
            Unit::Percent => "%"@,
        }
    }

    /// The unit label as the meter documentation writes it.
    pub fn label(&self) -> (r: &'static str)
        ensures
            r@ == self.spec_label(),
    {
        match self {
            Unit::Volt => "V",
            Unit::MilliVolt => "mV",
            Unit::Amp => "A",
            Unit::MilliAmp => "mA",
            Unit::MicroAmp => "uA",
            Unit::Ohm => "Ohm",
            Unit::KiloOhm => "kOhm",
            Unit::MegaOhm => "MOhm",
            Unit::NanoFarad => "nF",
            Unit::MicroFarad => "uF",
            Unit::MilliFarad => "mF",
            Unit::Farad => "F",
            Unit::Hertz => "Hz",
            Unit::KiloHertz => "kHz",
            Unit::MegaHertz => "MHz",
            Unit::Percent => "%",
        }
    }
}

impl RangeLabel {
    /// The display-range label as the meter shows it.
    pub open spec fn spec_label(self) -> Seq<char> {
        match self {
            RangeLabel::R2_2000 => "2.2000"@,
            RangeLabel::R22_000 => "22.000"@,
            RangeLabel::R220_00 => "220.00"@,
            RangeLabel::R1000_0 => "1000.0"@,
            RangeLabel::R2200_0 => "2200.0"@,
            RangeLabel::R10_000 => "10.000"@,
            RangeLabel::R100_0 => "100.0"@,
        }
    }

    /// The display-range label as the meter shows it.
    pub fn label(&self) -> (r: &'static str)
        ensures
            r@ == self.spec_label(),
    {
        match self {
            RangeLabel::R2_2000 => "2.2000",
            RangeLabel::R22_000 => "22.000",
            RangeLabel::R220_00 => "220.00",
            RangeLabel::R1000_0 => "1000.0",
            RangeLabel::R2200_0 => "2200.0",
            RangeLabel::R10_000 => "10.000",
            RangeLabel::R100_0 => "100.0",
        }
    }
}

/// Short-hand for a present range-table entry.
pub open spec fn entry(label: RangeLabel, unit: Unit, exp10: int) -> Option<RangeEntry> {
    Some(RangeEntry { label, unit, exp10: exp10 as i32 })
}

/// The range table of `family` at the 3-bit range code `code`: the
/// fixed, closed lookup tables of the protocol.
pub open spec fn spec_range_entry(family: RangeFamily, code: int) -> Option<RangeEntry> {
    match family {
        RangeFamily::Voltage => if code == 0 {
            entry(RangeLabel::R2_2000, Unit::Volt, -4)
        } else if code == 1 {
            entry(RangeLabel::R22_000, Unit::Volt, -3)
        } else if code == 2 {
            entry(RangeLabel::R220_00, Unit::Volt, -2)
        } else if code == 3 {
            entry(RangeLabel::R1000_0, Unit::Volt, -1)
        } else if code == 4 {
            entry(RangeLabel::R220_00, Unit::MilliVolt, -2)
        } else {
            None
        },
        RangeFamily::Resistance => if code == 0 {
            entry(RangeLabel::R220_00, Unit::Ohm, -2)
        } else if code == 1 {
            entry(RangeLabel::R2_2000, Unit::KiloOhm, -4)
        } else if code == 2 {
            entry(RangeLabel::R22_000, Unit::KiloOhm, -3)
        } else if code == 3 {
            entry(RangeLabel::R220_00, Unit::KiloOhm, -2)
        } else if code == 4 {
            entry(RangeLabel::R2_2000, Unit::MegaOhm, -4)
        } else if code == 5 {
            entry(RangeLabel::R22_000, Unit::MegaOhm, -3)
        } else if code == 6 {
            entry(RangeLabel::R220_00, Unit::MegaOhm, -2)
        } else {
            None
        },
        RangeFamily::Capacitance => if code == 0 {
            entry(RangeLabel::R22_000, Unit::NanoFarad, -3)
        } else if code == 1 {
            entry(RangeLabel::R220_00, Unit::NanoFarad, -2)
        } else if code == 2 {
            entry(RangeLabel::R2_2000, Unit::MicroFarad, -4)
        } else if code == 3 {
            entry(RangeLabel::R22_000, Unit::MicroFarad, -3)
        } else if code == 4 {
            entry(RangeLabel::R220_00, Unit::MicroFarad, -2)
        } else if code == 5 {
            entry(RangeLabel::R2_2000, Unit::MilliFarad, -4)
        } else if code == 6 {
            entry(RangeLabel::R22_000, Unit::MilliFarad, -3)
        } else if code == 7 {
            entry(RangeLabel::R220_00, Unit::MilliFarad, -2)
        } else {
            None
        },
        RangeFamily::Frequency => if code == 0 {
            entry(RangeLabel::R220_00, Unit::Hertz, -2)
        } else if code == 1 {
            entry(RangeLabel::R2200_0, Unit::Hertz, -1)
        } else if code == 3 {
            entry(RangeLabel::R22_000, Unit::KiloHertz, -3)
        } else if code == 4 {
            entry(RangeLabel::R220_00, Unit::KiloHertz, -2)
        } else if code == 5 {
            entry(RangeLabel::R2_2000, Unit::MegaHertz, -4)
        } else if code == 6 {
            entry(RangeLabel::R22_000, Unit::MegaHertz, -3)
        } else if code == 7 {
            entry(RangeLabel::R220_00, Unit::MegaHertz, -2)
        } else {
            None
        },
        RangeFamily::MicroCurrent => if code == 0 {
            entry(RangeLabel::R220_00, Unit::MicroAmp, -2)
        } else if code == 1 {
            entry(RangeLabel::R2200_0, Unit::MicroAmp, -1)
        } else {
            None
        },
        RangeFamily::MilliCurrent => if code == 0 {
            entry(RangeLabel::R22_000, Unit::MilliAmp, -3)
        } else if code == 1 {
            entry(RangeLabel::R220_00, Unit::MilliAmp, -2)
        } else {
            None
        },
        RangeFamily::Current => if code == 0 {
            entry(RangeLabel::R10_000, Unit::Amp, -3)
        } else {
            None
        },
        RangeFamily::Percent => if code == 2 || code == 7 {
            None
        } else if 0 <= code < 8 {
            entry(RangeLabel::R100_0, Unit::Percent, -2)
        } else {
            None
        },
    }
}

/// The measurement-type table at the 4-bit mode code `code`.
pub open spec fn spec_meas_type(code: int) -> Option<MeasType> {
    if code == 0 {
        Some(MeasType { mode: Mode::Current, family: Some(RangeFamily::Current) })
    } else if code == 1 {
        Some(MeasType { mode: Mode::Diode, family: Some(RangeFamily::Voltage) })
    } else if code == 2 {
        Some(MeasType { mode: Mode::Frequency, family: Some(RangeFamily::Frequency) })
    } else if code == 3 {
        Some(MeasType { mode: Mode::Resistance, family: Some(RangeFamily::Resistance) })
    } else if code == 4 {
        Some(MeasType { mode: Mode::Temperature, family: None })
    } else if code == 5 {
        Some(MeasType { mode: Mode::Buzzer, family: Some(RangeFamily::Resistance) })
    } else if code == 6 {
        Some(MeasType { mode: Mode::Capacitance, family: Some(RangeFamily::Capacitance) })
    } else if code == 9 {
        Some(MeasType { mode: Mode::Current, family: Some(RangeFamily::Current) })
    } else if code == 11 {
        Some(MeasType { mode: Mode::Voltage, family: Some(RangeFamily::Voltage) })
    } else if code == 13 {
        Some(MeasType { mode: Mode::MicroCurrent, family: Some(RangeFamily::MicroCurrent) })
    } else if code == 14 {
        Some(MeasType { mode: Mode::Adapter, family: None })
    } else if code == 15 {
        Some(MeasType { mode: Mode::MilliCurrent, family: Some(RangeFamily::MilliCurrent) })
    } else {
        None
    }
}

/// Looks up the range table of `family` at `code`.
pub fn range_entry(family: RangeFamily, code: u8) -> (r: Option<RangeEntry>)
    requires
        code < 8,
    ensures
        r == spec_range_entry(family, code as int),
{
    match family {
        RangeFamily::Voltage => if code == 0 {
            Some(RangeEntry { label: RangeLabel::R2_2000, unit: Unit::Volt, exp10: -4 })
        } else if code == 1 {
            Some(RangeEntry { label: RangeLabel::R22_000, unit: Unit::Volt, exp10: -3 })
        } else if code == 2 {
            Some(RangeEntry { label: RangeLabel::R220_00, unit: Unit::Volt, exp10: -2 })
        } else if code == 3 {
            Some(RangeEntry { label: RangeLabel::R1000_0, unit: Unit::Volt, exp10: -1 })
        } else if code == 4 {
            Some(RangeEntry { label: RangeLabel::R220_00, unit: Unit::MilliVolt, exp10: -2 })
        } else {
            None
        },
        RangeFamily::Resistance => if code == 0 {
            Some(RangeEntry { label: RangeLabel::R220_00, unit: Unit::Ohm, exp10: -2 })
        } else if code == 1 {
            Some(RangeEntry { label: RangeLabel::R2_2000, unit: Unit::KiloOhm, exp10: -4 })
        } else if code == 2 {
            Some(RangeEntry { label: RangeLabel::R22_000, unit: Unit::KiloOhm, exp10: -3 })
        } else if code == 3 {
            Some(RangeEntry { label: RangeLabel::R220_00, unit: Unit::KiloOhm, exp10: -2 })
        } else if code == 4 {
            Some(RangeEntry { label: RangeLabel::R2_2000, unit: Unit::MegaOhm, exp10: -4 })
        } else if code == 5 {
            Some(RangeEntry { label: RangeLabel::R22_000, unit: Unit::MegaOhm, exp10: -3 })
        } else if code == 6 {
            Some(RangeEntry { label: RangeLabel::R220_00, unit: Unit::MegaOhm, exp10: -2 })
        } else {
            None
        },
        RangeFamily::Capacitance => if code == 0 {
            Some(RangeEntry { label: RangeLabel::R22_000, unit: Unit::NanoFarad, exp10: -3 })
        } else if code == 1 {
            Some(RangeEntry { label: RangeLabel::R220_00, unit: Unit::NanoFarad, exp10: -2 })
        } else if code == 2 {
            Some(RangeEntry { label: RangeLabel::R2_2000, unit: Unit::MicroFarad, exp10: -4 })
        } else if code == 3 {
            Some(RangeEntry { label: RangeLabel::R22_000, unit: Unit::MicroFarad, exp10: -3 })
        } else if code == 4 {
            Some(RangeEntry { label: RangeLabel::R220_00, unit: Unit::MicroFarad, exp10: -2 })
        } else if code == 5 {
            Some(RangeEntry { label: RangeLabel::R2_2000, unit: Unit::MilliFarad, exp10: -4 })
        } else if code == 6 {
            Some(RangeEntry { label: RangeLabel::R22_000, unit: Unit::MilliFarad, exp10: -3 })
        } else {
            Some(RangeEntry { label: RangeLabel::R220_00, unit: Unit::MilliFarad, exp10: -2 })
        },
        RangeFamily::Frequency => if code == 0 {
            Some(RangeEntry { label: RangeLabel::R220_00, unit: Unit::Hertz, exp10: -2 })
        } else if code == 1 {
            Some(RangeEntry { label: RangeLabel::R2200_0, unit: Unit::Hertz, exp10: -1 })
        } else if code == 3 {
            Some(RangeEntry { label: RangeLabel::R22_000, unit: Unit::KiloHertz, exp10: -3 })
        } else if code == 4 {
            Some(RangeEntry { label: RangeLabel::R220_00, unit: Unit::KiloHertz, exp10: -2 })
        } else if code == 5 {
            Some(RangeEntry { label: RangeLabel::R2_2000, unit: Unit::MegaHertz, exp10: -4 })
        } else if code == 6 {
            Some(RangeEntry { label: RangeLabel::R22_000, unit: Unit::MegaHertz, exp10: -3 })
        } else if code == 7 {
            Some(RangeEntry { label: RangeLabel::R220_00, unit: Unit::MegaHertz, exp10: -2 })
        } else {
            None
        },
        RangeFamily::MicroCurrent => if code == 0 {
            Some(RangeEntry { label: RangeLabel::R220_00, unit: Unit::MicroAmp, exp10: -2 })
        } else if code == 1 {
            Some(RangeEntry { label: RangeLabel::R2200_0, unit: Unit::MicroAmp, exp10: -1 })
        } else {
            None
        },
        RangeFamily::MilliCurrent => if code == 0 {
            Some(RangeEntry { label: RangeLabel::R22_000, unit: Unit::MilliAmp, exp10: -3 })
        } else if code == 1 {
            Some(RangeEntry { label: RangeLabel::R220_00, unit: Unit::MilliAmp, exp10: -2 })
        } else {
            None
        },
        RangeFamily::Current => if code == 0 {
            Some(RangeEntry { label: RangeLabel::R10_000, unit: Unit::Amp, exp10: -3 })
        } else {
            None
        },
        RangeFamily::Percent => if code == 2 || code == 7 {
            None
        } else {
            Some(RangeEntry { label: RangeLabel::R100_0, unit: Unit::Percent, exp10: -2 })
        },
    }
}

/// Looks up the measurement-type table at `code`.
pub fn meas_type(code: u8) -> (r: Option<MeasType>)
    requires
        code < 16,
    ensures
        r == spec_meas_type(code as int),
{
    if code == 0 {
        Some(MeasType { mode: Mode::Current, family: Some(RangeFamily::Current) })
    } else if code == 1 {
        Some(MeasType { mode: Mode::Diode, family: Some(RangeFamily::Voltage) })
    } else if code == 2 {
        Some(MeasType { mode: Mode::Frequency, family: Some(RangeFamily::Frequency) })
    } else if code == 3 {
        Some(MeasType { mode: Mode::Resistance, family: Some(RangeFamily::Resistance) })
    } else if code == 4 {
        Some(MeasType { mode: Mode::Temperature, family: None })
    } else if code == 5 {
        Some(MeasType { mode: Mode::Buzzer, family: Some(RangeFamily::Resistance) })
    } else if code == 6 {
        Some(MeasType { mode: Mode::Capacitance, family: Some(RangeFamily::Capacitance) })
    } else if code == 9 {
        Some(MeasType { mode: Mode::Current, family: Some(RangeFamily::Current) })
    } else if code == 11 {
        Some(MeasType { mode: Mode::Voltage, family: Some(RangeFamily::Voltage) })
    } else if code == 13 {
        Some(MeasType { mode: Mode::MicroCurrent, family: Some(RangeFamily::MicroCurrent) })
    } else if code == 14 {
        Some(MeasType { mode: Mode::Adapter, family: None })
    } else if code == 15 {
        Some(MeasType { mode: Mode::MilliCurrent, family: Some(RangeFamily::MilliCurrent) })
    } else {
        None
    }
}

/// Every present range entry is well formed: its scale exponent lies
/// in the narrow band the tables use (so the scale factor is strictly
/// positive and small), and its display label is non-empty.
pub proof fn lemma_range_entry_wf(family: RangeFamily, code: int)
    ensures
        spec_range_entry(family, code) matches Some(e) ==> -4 <= e.exp10 <= -1
            && e.label.spec_label().len() > 0,
{
    if spec_range_entry(family, code) is Some {
        let e = spec_range_entry(family, code)->Some_0;
        lemma_label_nonempty(e.label);
    }
}

/// Every display-range label is a non-empty string.
pub proof fn lemma_label_nonempty(label: RangeLabel)
    ensures
        label.spec_label().len() > 0,
{
    match label {
        RangeLabel::R2_2000 => reveal_strlit("2.2000"),
        RangeLabel::R22_000 => reveal_strlit("22.000"),
        RangeLabel::R220_00 => reveal_strlit("220.00"),
        RangeLabel::R1000_0 => reveal_strlit("1000.0"),
        RangeLabel::R2200_0 => reveal_strlit("2200.0"),
        RangeLabel::R10_000 => reveal_strlit("10.000"),
        RangeLabel::R100_0 => reveal_strlit("100.0"),
    }
}

} // verus!
