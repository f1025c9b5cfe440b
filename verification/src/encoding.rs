//! The symbolic vocabulary of the board and its fixed numeric encodings.
//!
//! Each enumeration maps one-to-one onto the small integers that cross the
//! hardware boundary. The mapping is written out as a total table in both
//! directions rather than left to the numeric layout of the type.

use vstd::prelude::*;

verus! {

/// The wire value of [`PinMode::PIN_MODE_NONE`]: the largest 8-bit value,
/// which no real mode uses.
pub const PIN_MODE_SENTINEL: u8 = 0xFF;

/// A physical pin of the board, by its symbolic name.
#[allow(non_camel_case_types)]
#[derive(Clone, Copy, Debug, PartialEq, Eq, Structural)]
pub enum PinIdentity {
    A0,
    A1,
    A2,
    D0,
    D1,
    D7,
}

impl PinIdentity {
    /// The wire value of a pin: its number on the board.
    pub open spec fn spec_code(self) -> i16 {
        match self {
            PinIdentity::A0 => 10,
            PinIdentity::A1 => 11,
            PinIdentity::A2 => 12,
            PinIdentity::D0 => 0,
            PinIdentity::D1 => 1,
            PinIdentity::D7 => 7,
        }
    }

    /// Encodes the pin as the hardware expects it.
    #[verifier::when_used_as_spec(spec_code)]
    pub fn code(self) -> (code: i16)
        ensures
            code == self.spec_code(),
    {
        match self {
            PinIdentity::A0 => 10,
            PinIdentity::A1 => 11,
            PinIdentity::A2 => 12,
            PinIdentity::D0 => 0,
            PinIdentity::D1 => 1,
            PinIdentity::D7 => 7,
        }
    }

    /// The pin that a wire value names, if the board has one.
    pub open spec fn spec_from_code(code: i16) -> Option<PinIdentity> {
        if code == 0 {
            Some(PinIdentity::D0)
        } else if code == 1 {
            Some(PinIdentity::D1)
        } else if code == 7 {
            Some(PinIdentity::D7)
        } else if code == 10 {
            Some(PinIdentity::A0)
        } else if code == 11 {
            Some(PinIdentity::A1)
        } else if code == 12 {
            Some(PinIdentity::A2)
        } else {
            None
        }
    }

    /// Decodes a wire value: the pin with that number, and `None` exactly
    /// when no pin has it.
    #[verifier::when_used_as_spec(spec_from_code)]
    pub fn from_code(code: i16) -> (pin: Option<PinIdentity>)
        ensures
            pin == PinIdentity::spec_from_code(code),
            match pin {
                Some(p) => p.code() == code,
                None => forall|p: PinIdentity| #[trigger] p.code() != code,
            },
    {
        match code {
            0 => Some(PinIdentity::D0),
            1 => Some(PinIdentity::D1),
            7 => Some(PinIdentity::D7),
            10 => Some(PinIdentity::A0),
            11 => Some(PinIdentity::A1),
            12 => Some(PinIdentity::A2),
            _ => None,
        }
    }
}

/// The electrical configuration of a pin. `PIN_MODE_NONE` stands for "no
/// mode"; the others are real modes.
#[allow(non_camel_case_types)]
#[derive(Clone, Copy, Debug, PartialEq, Eq, Structural)]
pub enum PinMode {
    INPUT,
    OUTPUT,
    INPUT_PULLUP,
    INPUT_PULLDOWN,
    /// Alternate-function output, push-pull (timers, UART, SPI).
    AF_OUTPUT_PUSHPULL,
    /// Alternate-function output, open drain (I2C); needs external pull-ups.
    AF_OUTPUT_DRAIN,
    /// Analog input (ADC).
    AN_INPUT,
    /// Analog output (DAC).
    AN_OUTPUT,
    PIN_MODE_NONE,
}

impl PinMode {
    /// The wire value of a mode. The real modes count up from 0; "no mode"
    /// is the sentinel.
    pub open spec fn spec_code(self) -> u8 {
        match self {
            PinMode::INPUT => 0,
            PinMode::OUTPUT => 1,
            PinMode::INPUT_PULLUP => 2,
            PinMode::INPUT_PULLDOWN => 3,
            PinMode::AF_OUTPUT_PUSHPULL => 4,
            PinMode::AF_OUTPUT_DRAIN => 5,
            PinMode::AN_INPUT => 6,
            PinMode::AN_OUTPUT => 7,
            PinMode::PIN_MODE_NONE => PIN_MODE_SENTINEL,
        }
    }

    /// Encodes the mode as the hardware expects it.
    #[verifier::when_used_as_spec(spec_code)]
    pub fn code(self) -> (code: u8)
        ensures
            code == self.spec_code(),
    {
        match self {
            PinMode::INPUT => 0,
            PinMode::OUTPUT => 1,
            PinMode::INPUT_PULLUP => 2,
            PinMode::INPUT_PULLDOWN => 3,
            PinMode::AF_OUTPUT_PUSHPULL => 4,
            PinMode::AF_OUTPUT_DRAIN => 5,
            PinMode::AN_INPUT => 6,
            PinMode::AN_OUTPUT => 7,
            PinMode::PIN_MODE_NONE => PIN_MODE_SENTINEL,
        }
    }

    /// The mode that a wire value names, if there is one.
    pub open spec fn spec_from_code(code: u8) -> Option<PinMode> {
        if code == 0 {
            Some(PinMode::INPUT)
        } else if code == 1 {
            Some(PinMode::OUTPUT)
        } else if code == 2 {
            Some(PinMode::INPUT_PULLUP)
        } else if code == 3 {
            Some(PinMode::INPUT_PULLDOWN)
        } else if code == 4 {
            Some(PinMode::AF_OUTPUT_PUSHPULL)
        } else if code == 5 {
            Some(PinMode::AF_OUTPUT_DRAIN)
        } else if code == 6 {
            Some(PinMode::AN_INPUT)
        } else if code == 7 {
            Some(PinMode::AN_OUTPUT)
        } else if code == PIN_MODE_SENTINEL {
            Some(PinMode::PIN_MODE_NONE)
        } else {
            None
        }
    }

    /// Decodes a wire value: the mode with that encoding, and `None` exactly
    /// when no mode has it. The sentinel decodes to "no mode".
    #[verifier::when_used_as_spec(spec_from_code)]
    pub fn from_code(code: u8) -> (mode: Option<PinMode>)
        ensures
            mode == PinMode::spec_from_code(code),
            match mode {
                Some(m) => m.code() == code,
                None => forall|m: PinMode| #[trigger] m.code() != code,
            },
    {
        match code {
            0 => Some(PinMode::INPUT),
            1 => Some(PinMode::OUTPUT),
            2 => Some(PinMode::INPUT_PULLUP),
            3 => Some(PinMode::INPUT_PULLDOWN),
            4 => Some(PinMode::AF_OUTPUT_PUSHPULL),
            5 => Some(PinMode::AF_OUTPUT_DRAIN),
            6 => Some(PinMode::AN_INPUT),
            7 => Some(PinMode::AN_OUTPUT),
            0xFF => Some(PinMode::PIN_MODE_NONE),
            _ => None,
        }
    }
}

/// The electrical level of a digital pin.
#[allow(non_camel_case_types)]
#[derive(Clone, Copy, Debug, PartialEq, Eq, Structural)]
pub enum LogicLevel {
    LOW,
    HIGH,
}

impl LogicLevel {
    /// The wire value of a level: 0 is low, 1 is high.
    pub open spec fn spec_code(self) -> u8 {
        match self {
            LogicLevel::LOW => 0,
            LogicLevel::HIGH => 1,
        }
    }

    /// Encodes the level as the hardware expects it.
    #[verifier::when_used_as_spec(spec_code)]
    pub fn code(self) -> (code: u8)
        ensures
            code == self.spec_code(),
    {
        match self {
            LogicLevel::LOW => 0,
            LogicLevel::HIGH => 1,
        }
    }

    /// The level that a wire value names, if there is one.
    pub open spec fn spec_from_code(code: u8) -> Option<LogicLevel> {
        if code == 0 {
            Some(LogicLevel::LOW)
        } else if code == 1 {
            Some(LogicLevel::HIGH)
        } else {
            None
        }
    }

    /// Decodes a wire value: the level with that encoding, and `None`
    /// exactly when neither level has it.
    #[verifier::when_used_as_spec(spec_from_code)]
    pub fn from_code(code: u8) -> (level: Option<LogicLevel>)
        ensures
            level == LogicLevel::spec_from_code(code),
            match level {
                Some(l) => l.code() == code,
                None => forall|l: LogicLevel| #[trigger] l.code() != code,
            },
    {
        match code {
            0 => Some(LogicLevel::LOW),
            1 => Some(LogicLevel::HIGH),
            _ => None,
        }
    }
}

/// Decoding undoes encoding, for pins, and finds nothing else: a wire value
/// decodes to a pin exactly when it is that pin's encoding.
pub proof fn lemma_pin_decode_inverts_encode(pin: PinIdentity, code: i16)
    ensures
        PinIdentity::from_code(pin.code()) == Some(pin),
        PinIdentity::from_code(code) == Some(pin) <==> pin.code() == code,
{
}

/// Decoding undoes encoding, for modes, and finds nothing else.
pub proof fn lemma_mode_decode_inverts_encode(mode: PinMode, code: u8)
    ensures
        PinMode::from_code(mode.code()) == Some(mode),
        PinMode::from_code(code) == Some(mode) <==> mode.code() == code,
{
}

/// Decoding undoes encoding, for levels, and finds nothing else.
pub proof fn lemma_level_decode_inverts_encode(level: LogicLevel, code: u8)
    ensures
        LogicLevel::from_code(level.code()) == Some(level),
        LogicLevel::from_code(code) == Some(level) <==> level.code() == code,
{
}

/// Every pin's wire value is a small non-negative number.
pub proof fn lemma_pin_codes_small(pin: PinIdentity)
    ensures
        0 <= pin.code() <= 12,
{
}

/// No two pins share a wire value.
pub proof fn lemma_pin_codes_unique(a: PinIdentity, b: PinIdentity)
    requires
        a != b,
    ensures
        a.code() != b.code(),
{
}

/// No two modes share a wire value, the sentinel included.
pub proof fn lemma_mode_codes_unique(a: PinMode, b: PinMode)
    requires
        a != b,
    ensures
        a.code() != b.code(),
{
}

/// Every real mode encodes strictly below the sentinel, and "no mode" is the
/// one mode that encodes to it.
pub proof fn lemma_sentinel_above_real_modes(mode: PinMode)
    ensures
        PIN_MODE_SENTINEL == 0xFF,
        PinMode::PIN_MODE_NONE.code() == PIN_MODE_SENTINEL,
        mode != PinMode::PIN_MODE_NONE ==> mode.code() < PIN_MODE_SENTINEL,
        mode.code() == PIN_MODE_SENTINEL <==> mode == PinMode::PIN_MODE_NONE,
{
}

/// The two levels encode as the hardware's boolean convention has it: low is
/// 0 and high is 1, and each value belongs to that level alone.
pub proof fn lemma_level_codes(level: LogicLevel)
    ensures
        LogicLevel::LOW.code() == 0,
        LogicLevel::HIGH.code() == 1,
        level.code() == 0 <==> level == LogicLevel::LOW,
        level.code() == 1 <==> level == LogicLevel::HIGH,
{
}

} // verus!
