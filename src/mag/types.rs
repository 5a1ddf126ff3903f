//! Enumerated fields of the magnetometer registers.
//!
//! Each enumeration covers every bit pattern of its field, so decoding a
//! field never fails.
use vstd::prelude::*;

verus! {

/// Magnetometer output data rate.
#[derive(Clone, Copy, Debug, PartialEq, Eq, Structural)]
pub enum MagOdr {
    /// 0.75 Hz (`0b000`)
    Hz0_75,
    /// 1.5 Hz (`0b001`)
    Hz1_5,
    /// 3 Hz (`0b010`)
    Hz3,
    /// 7.5 Hz (`0b011`)
    Hz7_5,
    /// 15 Hz (`0b100`)
    Hz15,
    /// 30 Hz (`0b101`)
    Hz30,
    /// 75 Hz (`0b110`)
    Hz75,
    /// 220 Hz (`0b111`)
    Hz220,
}

impl MagOdr {
    /// The 3-bit code of a value.
    pub open spec fn spec_into_bits(self) -> u8 {
        match self {
            MagOdr::Hz0_75 => 0b000,
            MagOdr::Hz1_5 => 0b001,
            MagOdr::Hz3 => 0b010,
            MagOdr::Hz7_5 => 0b011,
            MagOdr::Hz15 => 0b100,
            MagOdr::Hz30 => 0b101,
            MagOdr::Hz75 => 0b110,
            MagOdr::Hz220 => 0b111,
        }
    }

    /// The value whose code is the low 3 bits of `value`.
    pub open spec fn spec_from_bits(value: u8) -> Self {
        let code = value % 8;
        if code == 0 {
            MagOdr::Hz0_75
        } else if code == 1 {
            MagOdr::Hz1_5
        } else if code == 2 {
            MagOdr::Hz3
        } else if code == 3 {
            MagOdr::Hz7_5
        } else if code == 4 {
            MagOdr::Hz15
        } else if code == 5 {
            MagOdr::Hz30
        } else if code == 6 {
            MagOdr::Hz75
        } else {
            MagOdr::Hz220
        }
    }

    /// Converts the value into its 3-bit code.
    #[verifier::when_used_as_spec(spec_into_bits)]
    pub fn into_bits(self) -> (r: u8)
        ensures
            r == self.spec_into_bits(),
            r < 8,
    {
        match self {
            MagOdr::Hz0_75 => 0b000,
            MagOdr::Hz1_5 => 0b001,
            MagOdr::Hz3 => 0b010,
            MagOdr::Hz7_5 => 0b011,
            MagOdr::Hz15 => 0b100,
            MagOdr::Hz30 => 0b101,
            MagOdr::Hz75 => 0b110,
            MagOdr::Hz220 => 0b111,
        }
    }

    /// Decodes a 3-bit code; every code names a value.
    pub fn from_bits(value: u8) -> (r: Self)
        requires
            value < 8,
        ensures
            r == Self::spec_from_bits(value),
            r.spec_into_bits() == value,
    {
        match value {
            0b000 => MagOdr::Hz0_75,
            0b001 => MagOdr::Hz1_5,
            0b010 => MagOdr::Hz3,
            0b011 => MagOdr::Hz7_5,
            0b100 => MagOdr::Hz15,
            0b101 => MagOdr::Hz30,
            0b110 => MagOdr::Hz75,
            _ => MagOdr::Hz220,
        }
    }

    /// Every 3-bit pattern decodes to the value with that code, and every
    /// value decodes back from its code.
    pub proof fn lemma_codes(value: u8, v: Self)
        ensures
            value < 8 ==> Self::spec_from_bits(value).spec_into_bits() == value,
            v.spec_into_bits() < 8,
            Self::spec_from_bits(v.spec_into_bits()) == v,
    {
    }
}

/// Magnetometer gain configuration.
#[derive(Clone, Copy, Debug, PartialEq, Eq, Structural)]
pub enum MagGain {
    /// Not assigned by the device (`0b000`)
    Reserved000,
    /// Sensor input field range ±1.3 Gauss (`0b001`).
    ///
    /// Gain X, Y: 1100 LSB/Gauss; gain Z: 980 LSB/Gauss
    Gauss1_3,
    /// Sensor input field range ±1.9 Gauss (`0b010`).
    ///
    /// Gain X, Y: 855 LSB/Gauss; gain Z: 760 LSB/Gauss
    Gauss1_9,
    /// Sensor input field range ±2.5 Gauss (`0b011`).
    ///
    /// Gain X, Y: 670 LSB/Gauss; gain Z: 600 LSB/Gauss
    Gauss2_5,
    /// Sensor input field range ±4.0 Gauss (`0b100`).
    ///
    /// Gain X, Y: 450 LSB/Gauss; gain Z: 400 LSB/Gauss
    Gauss4_0,
    /// Sensor input field range ±4.7 Gauss (`0b101`).
    ///
    /// Gain X, Y: 400 LSB/Gauss; gain Z: 355 LSB/Gauss
    Gauss4_7,
    /// Sensor input field range ±5.6 Gauss (`0b110`).
    ///
    /// Gain X, Y: 330 LSB/Gauss; gain Z: 295 LSB/Gauss
    Gauss5_6,
    /// Sensor input field range ±8.1 Gauss (`0b111`).
    ///
    /// Gain X, Y: 230 LSB/Gauss; gain Z: 205 LSB/Gauss
    Gauss8_1,
}

impl MagGain {
    /// The 3-bit code of a value.
    pub open spec fn spec_into_bits(self) -> u8 {
        match self {
            MagGain::Reserved000 => 0b000,
            MagGain::Gauss1_3 => 0b001,
            MagGain::Gauss1_9 => 0b010,
            MagGain::Gauss2_5 => 0b011,
            MagGain::Gauss4_0 => 0b100,
            MagGain::Gauss4_7 => 0b101,
            MagGain::Gauss5_6 => 0b110,
            MagGain::Gauss8_1 => 0b111,
        }
    }

    /// The value whose code is the low 3 bits of `value`.
    pub open spec fn spec_from_bits(value: u8) -> Self {
        let code = value % 8;
        if code == 0 {
            MagGain::Reserved000
        } else if code == 1 {
            MagGain::Gauss1_3
        } else if code == 2 {
            MagGain::Gauss1_9
        } else if code == 3 {
            MagGain::Gauss2_5
        } else if code == 4 {
            MagGain::Gauss4_0
        } else if code == 5 {
            MagGain::Gauss4_7
        } else if code == 6 {
            MagGain::Gauss5_6
        } else {
            MagGain::Gauss8_1
        }
    }

    /// Converts the value into its 3-bit code.
    #[verifier::when_used_as_spec(spec_into_bits)]
    pub fn into_bits(self) -> (r: u8)
        ensures
            r == self.spec_into_bits(),
            r < 8,
    {
        match self {
            MagGain::Reserved000 => 0b000,
            MagGain::Gauss1_3 => 0b001,
            MagGain::Gauss1_9 => 0b010,
            MagGain::Gauss2_5 => 0b011,
            MagGain::Gauss4_0 => 0b100,
            MagGain::Gauss4_7 => 0b101,
            MagGain::Gauss5_6 => 0b110,
            MagGain::Gauss8_1 => 0b111,
        }
    }

    /// Decodes a 3-bit code; every code names a value.
    pub fn from_bits(value: u8) -> (r: Self)
        requires
            value < 8,
        ensures
            r == Self::spec_from_bits(value),
            r.spec_into_bits() == value,
    {
        match value {
            0b000 => MagGain::Reserved000,
            0b001 => MagGain::Gauss1_3,
            0b010 => MagGain::Gauss1_9,
            0b011 => MagGain::Gauss2_5,
            0b100 => MagGain::Gauss4_0,
            0b101 => MagGain::Gauss4_7,
            0b110 => MagGain::Gauss5_6,
            _ => MagGain::Gauss8_1,
        }
    }

    /// Every 3-bit pattern decodes to the value with that code, and every
    /// value decodes back from its code.
    pub proof fn lemma_codes(value: u8, v: Self)
        ensures
            value < 8 ==> Self::spec_from_bits(value).spec_into_bits() == value,
            v.spec_into_bits() < 8,
            Self::spec_from_bits(v.spec_into_bits()) == v,
    {
    }
}

} // verus!
