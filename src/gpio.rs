//! GPIO pin modes, levels and the chip's level bit-vector.
//!
//! Pins 0 to 4 sit at bits 3 to 7, pin 5 at bit 8, and pins 6 to 10 at bits 10 to 14:
//! bit 9 is unused.
use vstd::prelude::*;

verus! {

/// Highest valid GPIO pin index.
pub const MAX_PIN: u8 = 10;

/// Number of GPIO pins.
pub const NUM_PINS: usize = 11;

/// Drive mode of a GPIO pin.
#[derive(Clone, Copy, Debug, PartialEq, Eq, Structural)]
pub enum GpioMode {
    Input,
    OpenDrain,
    PushPull,
}

/// Output level of a GPIO pin.
#[derive(Clone, Copy, Debug, PartialEq, Eq, Structural)]
pub enum GpioLevel {
    Low,
    High,
}

impl GpioMode {
    pub open spec fn code_spec(self) -> u8 {
        match self {
            GpioMode::Input => 0x00,
            GpioMode::OpenDrain => 0x01,
            GpioMode::PushPull => 0x02,
        }
    }

    pub open spec fn from_code_spec(c: u8) -> Option<GpioMode> {
        if c == 0x00 {
            Some(GpioMode::Input)
        } else if c == 0x01 {
            Some(GpioMode::OpenDrain)
        } else if c == 0x02 {
            Some(GpioMode::PushPull)
        } else {
            None
        }
    }

    /// The wire byte of this mode.
    pub fn code(&self) -> (r: u8)
        ensures
            r == self.code_spec(),
    {
        match self {
            GpioMode::Input => 0x00,
            GpioMode::OpenDrain => 0x01,
            GpioMode::PushPull => 0x02,
        }
    }

    /// The mode whose wire byte is `c`, if any.
    pub fn from_code(c: u8) -> (r: Option<GpioMode>)
        ensures
            r == GpioMode::from_code_spec(c),
    {
        if c == 0x00 {
            Some(GpioMode::Input)
        } else if c == 0x01 {
            Some(GpioMode::OpenDrain)
        } else if c == 0x02 {
            Some(GpioMode::PushPull)
        } else {
            None
        }
    }
}

impl GpioLevel {
    pub open spec fn code_spec(self) -> u8 {
        match self {
            GpioLevel::Low => 0x00,
            GpioLevel::High => 0x01,
        }
    }

    pub open spec fn from_code_spec(c: u8) -> Option<GpioLevel> {
        if c == 0x00 {
            Some(GpioLevel::Low)
        } else if c == 0x01 {
            Some(GpioLevel::High)
        } else {
            None
        }
    }

    /// The wire byte of this level.
    pub fn code(&self) -> (r: u8)
        ensures
            r == self.code_spec(),
    {
        match self {
            GpioLevel::Low => 0x00,
            GpioLevel::High => 0x01,
        }
    }

    /// The level whose wire byte is `c`, if any.
    pub fn from_code(c: u8) -> (r: Option<GpioLevel>)
        ensures
            r == GpioLevel::from_code_spec(c),
    {
        if c == 0x00 {
            Some(GpioLevel::Low)
        } else if c == 0x01 {
            Some(GpioLevel::High)
        } else {
            None
        }
    }
}

/// The three payload bytes of a set-mode-and-level request: pin, mode, level.
pub open spec fn mode_level_payload(pin: u8, mode: GpioMode, level: GpioLevel) -> Seq<u8> {
    seq![pin, mode.code_spec(), level.code_spec()]
}

/// What a mode-and-level payload says, where it is well formed.
pub open spec fn decode_mode_level_spec(b: Seq<u8>) -> Option<(u8, GpioMode, GpioLevel)> {
    if b.len() == 3 && b[0] <= MAX_PIN && GpioMode::from_code_spec(b[1]) is Some
        && GpioLevel::from_code_spec(b[2]) is Some {
        Some((b[0], GpioMode::from_code_spec(b[1])->0, GpioLevel::from_code_spec(b[2])->0))
    } else {
        None
    }
}

/// Encodes the payload that sets `pin` to `mode` at `level`.
pub fn encode_mode_level(pin: u8, mode: GpioMode, level: GpioLevel) -> (r: [u8; 3])
    requires
        pin <= MAX_PIN,
    ensures
        r@ == mode_level_payload(pin, mode, level),
{
    let r = [pin, mode.code(), level.code()];
    assert(r@ =~= mode_level_payload(pin, mode, level));
    r
}

/// Decodes a set-mode-and-level payload.
pub fn decode_mode_level(b: &[u8]) -> (r: Option<(u8, GpioMode, GpioLevel)>)
    ensures
        r == decode_mode_level_spec(b@),
{
    if b.len() != 3 || b[0] > MAX_PIN {
        return None;
    }
    match (GpioMode::from_code(b[1]), GpioLevel::from_code(b[2])) {
        (Some(m), Some(l)) => Some((b[0], m, l)),
        _ => None,
    }
}

/// Decoding an encoded mode-and-level payload gives back the pin, mode and level.
pub proof fn lemma_mode_level_round_trip(pin: u8, mode: GpioMode, level: GpioLevel)
    requires
        pin <= MAX_PIN,
    ensures
        decode_mode_level_spec(mode_level_payload(pin, mode, level)) == Some((pin, mode, level)),
{
}

/// The bit that carries `pin` in the level vector.
pub open spec fn pin_bit_spec(pin: u8) -> u16 {
    if pin == 0 {
        0x0008
    } else if pin == 1 {
        0x0010
    } else if pin == 2 {
        0x0020
    } else if pin == 3 {
        0x0040
    } else if pin == 4 {
        0x0080
    } else if pin == 5 {
        0x0100
    } else if pin == 6 {
        0x0400
    } else if pin == 7 {
        0x0800
    } else if pin == 8 {
        0x1000
    } else if pin == 9 {
        0x2000
    } else {
        0x4000
    }
}

/// All bits that carry a pin.
pub const ALL_PINS_MASK: u16 = 0x7df8;

/// The bit that carries `pin` in the level vector.
pub fn pin_bit(pin: u8) -> (r: u16)
    requires
        pin <= MAX_PIN,
    ensures
        r == pin_bit_spec(pin),
{
    match pin {
        0 => 0x0008,
        1 => 0x0010,
        2 => 0x0020,
        3 => 0x0040,
        4 => 0x0080,
        5 => 0x0100,
        6 => 0x0400,
        7 => 0x0800,
        8 => 0x1000,
        9 => 0x2000,
        _ => 0x4000,
    }
}

/// Levels of all GPIO pins, as the chip's bit-vector.
#[derive(Clone, Copy, Debug, PartialEq, Eq, Structural)]
pub struct GpioLevels {
    pub bits: u16,
}

impl GpioLevels {
    pub open spec fn bits_spec(self) -> u16 {
        self.bits
    }

    /// Whether `pin` is high in this vector.
    pub open spec fn is_high_spec(self, pin: u8) -> bool {
        self.bits & pin_bit_spec(pin) != 0
    }

    /// The levels whose bits are those of `v` that carry a pin.
    pub fn from_bits_truncate(v: u16) -> (r: GpioLevels)
        ensures
            r.bits_spec() == v & ALL_PINS_MASK,
    {
        GpioLevels { bits: v & ALL_PINS_MASK }
    }

    /// The raw bit-vector.
    pub fn bits(&self) -> (r: u16)
        ensures
            r == self.bits_spec(),
    {
        self.bits
    }

    /// Whether `pin` is high.
    pub fn is_high(&self, pin: u8) -> (r: bool)
        requires
            pin <= MAX_PIN,
        ensures
            r == self.is_high_spec(pin),
    {
        self.bits & pin_bit(pin) != 0
    }
}

/// The levels that a two-byte GPIO values reply reports: the bytes are a big-endian vector.
pub open spec fn decode_levels_spec(raw: Seq<u8>) -> GpioLevels {
    GpioLevels { bits: crate::codec::be_u16_spec(raw[0], raw[1]) & ALL_PINS_MASK }
}

/// Decodes the two-byte reply of the GPIO values request.
pub fn decode_levels(raw: [u8; 2]) -> (r: GpioLevels)
    ensures
        r == decode_levels_spec(raw@),
{
    GpioLevels::from_bits_truncate(crate::codec::read_u16_be(raw))
}

/// Whether `pin` is high in a two-byte GPIO values reply.
pub open spec fn level_of_spec(raw: Seq<u8>, pin: u8) -> bool {
    decode_levels_spec(raw).is_high_spec(pin)
}

/// Whether `pin` is high in a two-byte GPIO values reply.
pub fn level_of(raw: [u8; 2], pin: u8) -> (r: bool)
    requires
        pin <= MAX_PIN,
    ensures
        r == level_of_spec(raw@, pin),
{
    decode_levels(raw).is_high(pin)
}

} // verus!
