use lsm303dlhc_registers::accel::{
    AccelOdr, ClickConfigurationRegisterA, ClickSourceRegisterA, ClickThresholdRegisterA,
    ClickTimeLatencyRegisterA, ClickTimeLimitRegisterA, ClickTimeWindowRegisterA,
    ControlRegister1A, ControlRegister2A, ControlRegister3A, ControlRegister4A, ControlRegister5A,
    ControlRegister6A, FifoControlRegisterA, FifoMode, FifoSourceRegisterA, HighpassFilterMode,
    Int1ConfigurationRegisterA, Int1DurationRegisterA, Int1SourceRegisterA,
    Int1ThresholdRegisterA, Int2ConfigurationRegisterA, Int2DurationRegisterA,
    Int2SourceRegisterA, Int2ThresholdRegisterA, OutXHighA, OutXLowA, OutYHighA, OutYLowA,
    OutZHighA, OutZLowA, ReferenceRegisterA, Sensitivity, StatusRegisterA,
};
use lsm303dlhc_registers::bitfield::InvalidField;
use lsm303dlhc_registers::mag::{
    ConfigurationARegisterM, ConfigurationBRegisterM, IdentificationARegisterM,
    IdentificationBRegisterM, IdentificationCRegisterM, MagGain, MagOdr, ModeRegisterM,
    OutXHighM, OutXLowM, OutYHighM, OutYLowM, OutZHighM, OutZLowM, StatusRegisterM,
    TemperatureOutHighM, TemperatureOutLowM,
};
use lsm303dlhc_registers::registers::{
    AccelerometerRegister, CraRegisterM, IRARegisterM, MagnetometerRegister,
};
use lsm303dlhc_registers::{accel, mag, Register, WritableRegister};

#[test]
#[allow(clippy::unusual_byte_groupings)]
fn accel_status_register_1a() {
    let reg = ControlRegister1A::new()
        .with_output_data_rate(AccelOdr::Hz400)
        .with_low_power_enable(false)
        .with_x_enable(true)
        .with_y_enable(true)
        .with_z_enable(true);

    assert_eq!(reg.into_bits(), 0b0111_0_111);
}

#[test]
#[allow(clippy::unusual_byte_groupings)]
fn registers_status_register_1a() {
    let reg = ControlRegister1A::new()
        .with_output_data_rate(AccelOdr::Hz400)
        .with_low_power_enable(false)
        .with_x_enable(true)
        .with_y_enable(true)
        .with_z_enable(true);

    assert_eq!(reg.into_bits(), 0b0111_0_111);
}

#[test]
fn cra_defaults() {
    let value = ConfigurationARegisterM::new();
    assert_eq!(value.into_bits(), 0b0010000);
}

fn round_trip_all<R: Register + PartialEq + core::fmt::Debug>() {
    for b in 0..=255u8 {
        let v = <R as Register>::from_bits(b);
        assert_eq!(v.to_bits(), b);
        assert_eq!(<R as Register>::from_bits(v.to_bits()), v);
    }
}

#[test]
fn every_accel_register_round_trips_every_byte() {
    round_trip_all::<ControlRegister1A>();
    round_trip_all::<ControlRegister2A>();
    round_trip_all::<ControlRegister3A>();
    round_trip_all::<ControlRegister4A>();
    round_trip_all::<ControlRegister5A>();
    round_trip_all::<ControlRegister6A>();
    round_trip_all::<ReferenceRegisterA>();
    round_trip_all::<StatusRegisterA>();
    round_trip_all::<OutXLowA>();
    round_trip_all::<OutXHighA>();
    round_trip_all::<OutYLowA>();
    round_trip_all::<OutYHighA>();
    round_trip_all::<OutZLowA>();
    round_trip_all::<OutZHighA>();
    round_trip_all::<FifoControlRegisterA>();
    round_trip_all::<FifoSourceRegisterA>();
    round_trip_all::<Int1ConfigurationRegisterA>();
    round_trip_all::<Int1SourceRegisterA>();
    round_trip_all::<Int1ThresholdRegisterA>();
    round_trip_all::<Int1DurationRegisterA>();
    round_trip_all::<Int2ConfigurationRegisterA>();
    round_trip_all::<Int2SourceRegisterA>();
    round_trip_all::<Int2ThresholdRegisterA>();
    round_trip_all::<Int2DurationRegisterA>();
    round_trip_all::<ClickConfigurationRegisterA>();
    round_trip_all::<ClickSourceRegisterA>();
    round_trip_all::<ClickThresholdRegisterA>();
    round_trip_all::<ClickTimeLimitRegisterA>();
    round_trip_all::<ClickTimeLatencyRegisterA>();
    round_trip_all::<ClickTimeWindowRegisterA>();
}

#[test]
fn every_mag_register_round_trips_every_byte() {
    round_trip_all::<ConfigurationARegisterM>();
    round_trip_all::<ConfigurationBRegisterM>();
    round_trip_all::<ModeRegisterM>();
    round_trip_all::<OutXHighM>();
    round_trip_all::<OutXLowM>();
    round_trip_all::<OutZHighM>();
    round_trip_all::<OutZLowM>();
    round_trip_all::<OutYHighM>();
    round_trip_all::<OutYLowM>();
    round_trip_all::<StatusRegisterM>();
    round_trip_all::<IdentificationARegisterM>();
    round_trip_all::<IdentificationBRegisterM>();
    round_trip_all::<IdentificationCRegisterM>();
    round_trip_all::<TemperatureOutHighM>();
    round_trip_all::<TemperatureOutLowM>();
}

#[test]
fn fields_round_trip_through_the_builders() {
    for b in 0..=255u8 {
        let r = ControlRegister1A::from_bits(b);
        let rebuilt = ControlRegister1A::from_bits(b)
            .with_output_data_rate(r.output_data_rate())
            .with_low_power_enable(r.low_power_enable())
            .with_z_enable(r.z_enable())
            .with_y_enable(r.y_enable())
            .with_x_enable(r.x_enable());
        assert_eq!(rebuilt, r);

        let f = FifoControlRegisterA::from_bits(b);
        let rebuilt = FifoControlRegisterA::from_bits(b)
            .with_fifo_mode(f.fifo_mode())
            .with_trigger_on_int2(f.trigger_on_int2())
            .with_fth(f.fth());
        assert_eq!(rebuilt, f);
    }
}

#[test]
fn reserved_bits_are_kept_on_decode() {
    // Bit 0 of CTRL_REG3_A is reserved; a byte read back keeps it.
    let r = ControlRegister3A::from_bits(0b0000_0001);
    assert!(!r.i1overrun());
    assert_eq!(r.with_i1click(true).into_bits(), 0b1000_0001);
    // Bits 1..3 of CTRL_REG4_A are reserved.
    let r = ControlRegister4A::from_bits(0b0000_0110).with_high_resolution(true);
    assert_eq!(r.into_bits(), 0b0000_1110);
}

#[test]
fn every_accel_odr_code_decodes() {
    for v in 0..16u8 {
        assert_eq!(AccelOdr::from_bits(v).into_bits(), v);
    }
    assert_eq!(AccelOdr::from_bits(0b0111), AccelOdr::Hz400);
    assert_eq!(AccelOdr::from_bits(0b1111), AccelOdr::Reserved1111);
}

#[test]
fn every_two_bit_code_decodes() {
    for v in 0..4u8 {
        assert_eq!(Sensitivity::from_bits(v).into_bits(), v);
        assert_eq!(FifoMode::from_bits(v).into_bits(), v);
        assert_eq!(HighpassFilterMode::from_bits(v).into_bits(), v);
    }
    assert_eq!(Sensitivity::from_bits(0b11), Sensitivity::G12);
    assert_eq!(FifoMode::from_bits(0b10), FifoMode::Stream);
    assert_eq!(HighpassFilterMode::from_bits(0b01), HighpassFilterMode::ReferenceSignal);
}

#[test]
fn every_mag_code_decodes() {
    for v in 0..8u8 {
        assert_eq!(MagOdr::from_bits(v).into_bits(), v);
        assert_eq!(MagGain::from_bits(v).into_bits(), v);
    }
    assert_eq!(MagGain::from_bits(0), MagGain::Reserved000);
    assert_eq!(MagGain::from_bits(0b111), MagGain::Gauss8_1);
    assert_eq!(MagOdr::from_bits(0b100), MagOdr::Hz15);
}

#[test]
fn every_enumerated_field_decodes_from_any_byte() {
    for b in 0..=255u8 {
        let _ = ControlRegister1A::from_bits(b).output_data_rate();
        let _ = ControlRegister2A::from_bits(b).hpm();
        let _ = ControlRegister4A::from_bits(b).full_scale();
        let _ = FifoControlRegisterA::from_bits(b).fifo_mode();
        let _ = ConfigurationARegisterM::from_bits(b).data_output_rate();
        let _ = ConfigurationBRegisterM::from_bits(b).gain();
    }
}

#[test]
fn status_register_decodes_each_flag() {
    let s = StatusRegisterA::from_bits(0b1001_0010);
    assert!(s.zyx_overrun());
    assert!(!s.z_overrun());
    assert!(!s.y_overrun());
    assert!(s.x_overrun());
    assert!(!s.xyz_data_available());
    assert!(!s.z_data_available());
    assert!(s.y_data_available());
    assert!(!s.x_data_available());
}

#[test]
fn cra_default_fields() {
    let cra = ConfigurationARegisterM::new();
    assert!(!cra.temp_en());
    assert_eq!(cra.data_output_rate(), MagOdr::Hz15);
    assert_eq!(cra.data_output_rate().into_bits(), 0b100);
    assert_eq!(CraRegisterM::default(), cra);
}

#[test]
fn power_on_defaults() {
    assert_eq!(ControlRegister1A::new().into_bits(), 0b0000_0111);
    assert_eq!(ControlRegister1A::default().output_data_rate(), AccelOdr::Disabled);
    assert_eq!(FifoControlRegisterA::new().fifo_mode(), FifoMode::Bypass);
    assert_eq!(ConfigurationBRegisterM::new().gain(), MagGain::Gauss1_3);
    assert_eq!(ConfigurationBRegisterM::new().into_bits(), 0b0010_0000);
    let mode = ModeRegisterM::new();
    assert!(mode.sleep_mode());
    assert!(mode.single_conversion());
    assert_eq!(mode.into_bits(), 0b0000_0011);
    assert_eq!(IdentificationARegisterM::new().value(), b'H');
    assert_eq!(IdentificationBRegisterM::new().value(), b'4');
    assert_eq!(IdentificationCRegisterM::new().value(), b'3');
    assert_eq!(IRARegisterM::new().into_bits(), 0b0100_1000);
}

#[test]
fn builders_keep_other_fields() {
    let r = ControlRegister1A::new().with_low_power_enable(true);
    assert_eq!(r.into_bits(), 0b0000_1111);
    assert!(r.x_enable() && r.y_enable() && r.z_enable());
    let mut c = ControlRegister4A::new();
    c.set_full_scale(Sensitivity::G4);
    c.set_big_endian(true);
    assert_eq!(c.into_bits(), 0b0110_0000);
    assert_eq!(c.full_scale(), Sensitivity::G4);
    let m = ModeRegisterM::new().with_sleep_mode(false).with_single_conversion(false);
    assert_eq!(m.into_bits(), 0);
}

#[test]
fn narrow_fields_reject_values_that_do_not_fit() {
    let f = FifoControlRegisterA::new();
    assert_eq!(f.with_fth_checked(32), Err(InvalidField));
    assert_eq!(f.with_fth_checked(31).map(|v| v.into_bits()), Ok(0b0001_1111));
    let mut t = Int1ThresholdRegisterA::new();
    assert_eq!(t.set_threshold_checked(128), Err(InvalidField));
    assert_eq!(t.into_bits(), 0);
    assert_eq!(t.set_threshold_checked(127), Ok(()));
    assert_eq!(t.threshold(), 127);
    assert_eq!(t.into_bits(), 0x7f);
    let c = ControlRegister2A::new();
    assert_eq!(c.with_hpcf_checked(4), Err(InvalidField));
    assert_eq!(c.with_hpcf(3).into_bits(), 0b0011_0000);
}

#[test]
fn seven_bit_fields_reject_eight_bit_values() {
    let d = Int2DurationRegisterA::new();
    assert_eq!(d.with_duration_checked(200), Err(InvalidField));
    assert_eq!(d.with_duration_checked(100).map(|v| v.duration()), Ok(100));
}

fn writable<W: WritableRegister>() -> u8 {
    W::register_address()
}

#[test]
fn addresses_and_access() {
    assert_eq!(accel::DEFAULT_DEVICE_ADDRESS, 0b0011001);
    assert_eq!(mag::DEFAULT_DEVICE_ADDRESS, 0b0011110);
    assert_eq!(AccelerometerRegister::CTRL_REG1_A.addr(), 0x20);
    assert_eq!(u8::from(accel::RegisterAddress::TIME_WINDOW_A), 0x3D);
    assert_eq!(MagnetometerRegister::OUT_Y_L_M.addr(), 0x08);
    assert_eq!(u8::from(mag::RegisterAddress::TEMP_OUT_L_M), 0x32);
    assert_eq!(<ClickTimeWindowRegisterA as Register>::register_address(), 0x3D);
    assert_eq!(<StatusRegisterM as Register>::device_address(), 0b0011110);
    assert_eq!(<TemperatureOutHighM as Register>::register_address(), 0x31);
    assert!(accel::RegisterAddress::REFERENCE_A.is_writable());
    assert!(!accel::RegisterAddress::STATUS_REG_A.is_writable());
    assert!(mag::RegisterAddress::MR_REG_M.is_writable());
    assert!(!mag::RegisterAddress::IRA_REG_M.is_writable());
    assert_eq!(writable::<Int2ConfigurationRegisterA>(), 0x34);
}

#[test]
fn read_only_registers_expose_their_fields() {
    let s = Int1SourceRegisterA::from_bits(0b0110_0001);
    assert!(s.ia() && s.z_high() && s.x_low() && !s.y_low());
    let c = ClickSourceRegisterA::from_bits(0b0000_1100);
    assert!(c.sign_negative() && c.z() && !c.x());
    let f = FifoSourceRegisterA::from_bits(0b1010_0101);
    assert!(f.wtm() && !f.ovrn_fifo() && f.empty());
    assert_eq!(f.fss(), 5);
    let t = TemperatureOutLowM::from_bits(0b1010_0011);
    assert_eq!(t.value(), 0b1010);
    assert!(StatusRegisterM::from_bits(0b11).do_lock());
    assert_eq!(ReferenceRegisterA::from_bits(0x42).reference(), 0x42);
    assert_eq!(Int2SourceRegisterA::from_bits(0x40).ia(), true);
    assert!(Int2ConfigurationRegisterA::new().with_xlie(true).xlie());
    assert!(Int1ConfigurationRegisterA::new().with_six_d(true).six_d());
    assert_eq!(ClickConfigurationRegisterA::new().with_zd(true).into_bits(), 0b0010_0000);
    assert_eq!(ClickThresholdRegisterA::new().with_threshold(5).into_bits(), 5);
    assert_eq!(ClickTimeLimitRegisterA::new().with_time_limit(9).time_limit(), 9);
    assert_eq!(ClickTimeLatencyRegisterA::new().with_time_latency(200).into_bits(), 200);
    assert_eq!(Int1DurationRegisterA::new().with_duration(3).duration(), 3);
    assert_eq!(Int2ThresholdRegisterA::new().with_threshold(1).into_bits(), 1);
    assert!(ControlRegister5A::new().with_fifo_enable(true).fifo_enable());
    assert_eq!(ControlRegister6A::new().with_active_low(true).into_bits(), 0b0000_0010);
}
