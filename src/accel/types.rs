//! Enumerated fields of the accelerometer registers.
//!
//! Each enumeration covers every bit pattern of its field, so decoding a
//! field never fails.
use vstd::prelude::*;

verus! {

/// Accelerometer output data rate.
#[derive(Clone, Copy, Debug, PartialEq, Eq, Structural)]
pub enum AccelOdr {
    /// Power-down mode (`0b0000`)
    Disabled,
    /// 1 Hz (`0b0001`)
    Hz1,
    /// 10 Hz (`0b0010`)
    Hz10,
    /// 25 Hz (`0b0011`)
    Hz25,
    /// 50 Hz (`0b0100`)
    Hz50,
    /// 100 Hz (`0b0101`)
    Hz100,
    /// 200 Hz (`0b0110`)
    Hz200,
    /// 400 Hz (`0b0111`)
    Hz400,
    /// 1.620 kHz in low-power mode (`0b1000`)
    LpHz1620,
    /// 1.344 kHz in normal mode, 5.376 kHz in low-power mode (`0b1001`)
    LpHz1620NormalHz5376,
    /// Not assigned by the device (`0b1010`)
    Reserved1010,
    /// Not assigned by the device (`0b1011`)
    Reserved1011,
    /// Not assigned by the device (`0b1100`)
    Reserved1100,
    /// Not assigned by the device (`0b1101`)
    Reserved1101,
    /// Not assigned by the device (`0b1110`)
    Reserved1110,
    /// Not assigned by the device (`0b1111`)
    Reserved1111,
}

impl AccelOdr {
    /// The 4-bit code of a value.
    pub open spec fn spec_into_bits(self) -> u8 {
        match self {
            AccelOdr::Disabled => 0b0000,
            AccelOdr::Hz1 => 0b0001,
            AccelOdr::Hz10 => 0b0010,
            AccelOdr::Hz25 => 0b0011,
            AccelOdr::Hz50 => 0b0100,
            AccelOdr::Hz100 => 0b0101,
            AccelOdr::Hz200 => 0b0110,
            AccelOdr::Hz400 => 0b0111,
            AccelOdr::LpHz1620 => 0b1000,
            AccelOdr::LpHz1620NormalHz5376 => 0b1001,
            AccelOdr::Reserved1010 => 0b1010,
            AccelOdr::Reserved1011 => 0b1011,
            AccelOdr::Reserved1100 => 0b1100,
            AccelOdr::Reserved1101 => 0b1101,
            AccelOdr::Reserved1110 => 0b1110,
            AccelOdr::Reserved1111 => 0b1111,
        }
    }

    /// The value whose code is the low 4 bits of `value`.
    pub open spec fn spec_from_bits(value: u8) -> Self {
        let code = value % 16;
        if code == 0 {
            AccelOdr::Disabled
        } else if code == 1 {
            AccelOdr::Hz1
        } else if code == 2 {
            AccelOdr::Hz10
        } else if code == 3 {
            AccelOdr::Hz25
        } else if code == 4 {
            AccelOdr::Hz50
        } else if code == 5 {
            AccelOdr::Hz100
        } else if code == 6 {
            AccelOdr::Hz200
        } else if code == 7 {
            AccelOdr::Hz400
        } else if code == 8 {
            AccelOdr::LpHz1620
        } else if code == 9 {
            AccelOdr::LpHz1620NormalHz5376
        } else if code == 10 {
            AccelOdr::Reserved1010
        } else if code == 11 {
            AccelOdr::Reserved1011
        } else if code == 12 {
            AccelOdr::Reserved1100
        } else if code == 13 {
            AccelOdr::Reserved1101
        } else if code == 14 {
            AccelOdr::Reserved1110
        } else {
            AccelOdr::Reserved1111
        }
    }

    /// Converts the value into its 4-bit code.
    #[verifier::when_used_as_spec(spec_into_bits)]
    pub fn into_bits(self) -> (r: u8)
        ensures
            r == self.spec_into_bits(),
            r < 16,
    {
        match self {
            AccelOdr::Disabled => 0b0000,
            AccelOdr::Hz1 => 0b0001,
            AccelOdr::Hz10 => 0b0010,
            AccelOdr::Hz25 => 0b0011,
            AccelOdr::Hz50 => 0b0100,
            AccelOdr::Hz100 => 0b0101,
            AccelOdr::Hz200 => 0b0110,
            AccelOdr::Hz400 => 0b0111,
            AccelOdr::LpHz1620 => 0b1000,
            AccelOdr::LpHz1620NormalHz5376 => 0b1001,
            AccelOdr::Reserved1010 => 0b1010,
            AccelOdr::Reserved1011 => 0b1011,
            AccelOdr::Reserved1100 => 0b1100,
            AccelOdr::Reserved1101 => 0b1101,
            AccelOdr::Reserved1110 => 0b1110,
            AccelOdr::Reserved1111 => 0b1111,
        }
    }

    /// Decodes a 4-bit code; every code names a value.
    pub fn from_bits(value: u8) -> (r: Self)
        requires
            value < 16,
        ensures
            r == Self::spec_from_bits(value),
            r.spec_into_bits() == value,
    {
        match value {
            0b0000 => AccelOdr::Disabled,
            0b0001 => AccelOdr::Hz1,
            0b0010 => AccelOdr::Hz10,
            0b0011 => AccelOdr::Hz25,
            0b0100 => AccelOdr::Hz50,
            0b0101 => AccelOdr::Hz100,
            0b0110 => AccelOdr::Hz200,
            0b0111 => AccelOdr::Hz400,
            0b1000 => AccelOdr::LpHz1620,
            0b1001 => AccelOdr::LpHz1620NormalHz5376,
            0b1010 => AccelOdr::Reserved1010,
            0b1011 => AccelOdr::Reserved1011,
            0b1100 => AccelOdr::Reserved1100,
            0b1101 => AccelOdr::Reserved1101,
            0b1110 => AccelOdr::Reserved1110,
            _ => AccelOdr::Reserved1111,
        }
    }

    /// Every 4-bit pattern decodes to the value with that code, and every
    /// value decodes back from its code.
    pub proof fn lemma_codes(value: u8, v: Self)
        ensures
            value < 16 ==> Self::spec_from_bits(value).spec_into_bits() == value,
            v.spec_into_bits() < 16,
            Self::spec_from_bits(v.spec_into_bits()) == v,
    {
    }
}

/// Acceleration sensitivity (full scale selection).
#[derive(Clone, Copy, Debug, PartialEq, Eq, Structural)]
pub enum Sensitivity {
    /// Range: [-2g, +2g]. Sensitivity ~ 1 g / (1 << 14) LSB (`0b00`)
    G1,
    /// Range: [-4g, +4g]. Sensitivity ~ 2 g / (1 << 14) LSB (`0b01`)
    G2,
    /// Range: [-8g, +8g]. Sensitivity ~ 4 g / (1 << 14) LSB (`0b10`)
    G4,
    /// Range: [-16g, +16g]. Sensitivity ~ 12 g / (1 << 14) LSB (`0b11`)
    G12,
}

impl Sensitivity {
    /// The 2-bit code of a value.
    pub open spec fn spec_into_bits(self) -> u8 {
        match self {
            Sensitivity::G1 => 0b00,
            Sensitivity::G2 => 0b01,
            Sensitivity::G4 => 0b10,
            Sensitivity::G12 => 0b11,
        }
    }

    /// The value whose code is the low 2 bits of `value`.
    pub open spec fn spec_from_bits(value: u8) -> Self {
        let code = value % 4;
        if code == 0 {
            Sensitivity::G1
        } else if code == 1 {
            Sensitivity::G2
        } else if code == 2 {
            Sensitivity::G4
        } else {
            Sensitivity::G12
        }
    }

    /// Converts the value into its 2-bit code.
    #[verifier::when_used_as_spec(spec_into_bits)]
    pub fn into_bits(self) -> (r: u8)
        ensures
            r == self.spec_into_bits(),
            r < 4,
    {
        match self {
            Sensitivity::G1 => 0b00,
            Sensitivity::G2 => 0b01,
            Sensitivity::G4 => 0b10,
            Sensitivity::G12 => 0b11,
        }
    }

    /// Decodes a 2-bit code; every code names a value.
    pub fn from_bits(value: u8) -> (r: Self)
        requires
            value < 4,
        ensures
            r == Self::spec_from_bits(value),
            r.spec_into_bits() == value,
    {
        match value {
            0b00 => Sensitivity::G1,
            0b01 => Sensitivity::G2,
            0b10 => Sensitivity::G4,
            _ => Sensitivity::G12,
        }
    }

    /// Every 2-bit pattern decodes to the value with that code, and every
    /// value decodes back from its code.
    pub proof fn lemma_codes(value: u8, v: Self)
        ensures
            value < 4 ==> Self::spec_from_bits(value).spec_into_bits() == value,
            v.spec_into_bits() < 4,
            Self::spec_from_bits(v.spec_into_bits()) == v,
    {
    }
}

/// FIFO mode configuration.
#[derive(Clone, Copy, Debug, PartialEq, Eq, Structural)]
pub enum FifoMode {
    /// Bypass mode (`0b00`)
    ///
    /// Bypass the FIFO and store data directly in the output registers.
    Bypass,
    /// FIFO mode (`0b01`)
    #[allow(clippy::upper_case_acronyms)]
    FIFO,
    /// Stream mode (`0b10`)
    Stream,
    /// Trigger mode (`0b11`)
    Trigger,
}

impl FifoMode {
    /// The 2-bit code of a value.
    pub open spec fn spec_into_bits(self) -> u8 {
        match self {
            FifoMode::Bypass => 0b00,
            FifoMode::FIFO => 0b01,
            FifoMode::Stream => 0b10,
            FifoMode::Trigger => 0b11,
        }
    }

    /// The value whose code is the low 2 bits of `value`.
    pub open spec fn spec_from_bits(value: u8) -> Self {
        let code = value % 4;
        if code == 0 {
            FifoMode::Bypass
        } else if code == 1 {
            FifoMode::FIFO
        } else if code == 2 {
            FifoMode::Stream
        } else {
            FifoMode::Trigger
        }
    }

    /// Converts the value into its 2-bit code.
    #[verifier::when_used_as_spec(spec_into_bits)]
    pub fn into_bits(self) -> (r: u8)
        ensures
            r == self.spec_into_bits(),
            r < 4,
    {
        match self {
            FifoMode::Bypass => 0b00,
            FifoMode::FIFO => 0b01,
            FifoMode::Stream => 0b10,
            FifoMode::Trigger => 0b11,
        }
    }

    /// Decodes a 2-bit code; every code names a value.
    pub fn from_bits(value: u8) -> (r: Self)
        requires
            value < 4,
        ensures
            r == Self::spec_from_bits(value),
            r.spec_into_bits() == value,
    {
        match value {
            0b00 => FifoMode::Bypass,
            0b01 => FifoMode::FIFO,
            0b10 => FifoMode::Stream,
            _ => FifoMode::Trigger,
        }
    }

    /// Every 2-bit pattern decodes to the value with that code, and every
    /// value decodes back from its code.
    pub proof fn lemma_codes(value: u8, v: Self)
        ensures
            value < 4 ==> Self::spec_from_bits(value).spec_into_bits() == value,
            v.spec_into_bits() < 4,
            Self::spec_from_bits(v.spec_into_bits()) == v,
    {
    }
}

/// High-pass filter mode.
#[derive(Clone, Copy, Debug, PartialEq, Eq, Structural)]
pub enum HighpassFilterMode {
    /// Normal mode (`0b00`)
    ///
    /// Reset reading `HP_RESET_FILTER`.
    NormalWithReset,
    /// Reference signal for filtering (`0b01`)
    ReferenceSignal,
    /// Normal mode (`0b10`)
    Normal,
    /// Autoreset on interrupt event (`0b11`)
    AutoresetOnInterrupt,
}

impl HighpassFilterMode {
    /// The 2-bit code of a value.
    pub open spec fn spec_into_bits(self) -> u8 {
        match self {
            HighpassFilterMode::NormalWithReset => 0b00,
            HighpassFilterMode::ReferenceSignal => 0b01,
            HighpassFilterMode::Normal => 0b10,
            HighpassFilterMode::AutoresetOnInterrupt => 0b11,
        }
    }

    /// The value whose code is the low 2 bits of `value`.
    pub open spec fn spec_from_bits(value: u8) -> Self {
        let code = value % 4;
        if code == 0 {
            HighpassFilterMode::NormalWithReset
        } else if code == 1 {
            HighpassFilterMode::ReferenceSignal
        } else if code == 2 {
            HighpassFilterMode::Normal
        } else {
            HighpassFilterMode::AutoresetOnInterrupt
        }
    }

    /// Converts the value into its 2-bit code.
    #[verifier::when_used_as_spec(spec_into_bits)]
    pub fn into_bits(self) -> (r: u8)
        ensures
            r == self.spec_into_bits(),
            r < 4,
    {
        match self {
            HighpassFilterMode::NormalWithReset => 0b00,
            HighpassFilterMode::ReferenceSignal => 0b01,
            HighpassFilterMode::Normal => 0b10,
            HighpassFilterMode::AutoresetOnInterrupt => 0b11,
        }
    }

    /// Decodes a 2-bit code; every code names a value.
    pub fn from_bits(value: u8) -> (r: Self)
        requires
            value < 4,
        ensures
            r == Self::spec_from_bits(value),
            r.spec_into_bits() == value,
    {
        match value {
            0b00 => HighpassFilterMode::NormalWithReset,
            0b01 => HighpassFilterMode::ReferenceSignal,
            0b10 => HighpassFilterMode::Normal,
            _ => HighpassFilterMode::AutoresetOnInterrupt,
        }
    }

    /// Every 2-bit pattern decodes to the value with that code, and every
    /// value decodes back from its code.
    pub proof fn lemma_codes(value: u8, v: Self)
        ensures
            value < 4 ==> Self::spec_from_bits(value).spec_into_bits() == value,
            v.spec_into_bits() < 4,
            Self::spec_from_bits(v.spec_into_bits()) == v,
    {
    }
}

} // verus!
