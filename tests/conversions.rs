use lsm303dlhc_registers::accel::{
    AccelOdr, ControlRegister1A, OutXHighA, OutXLowA, OutYHighA,
    OutYLowA, OutZHighA, OutZLowA,
};
use lsm303dlhc_registers::conversion::{assemble_triple, combine, I16x3};
use lsm303dlhc_registers::device::SubDevice;
use lsm303dlhc_registers::mag::{OutXHighM, OutXLowM, OutYHighM, OutYLowM, OutZHighM, OutZLowM};

#[test]
fn combine_positive_word() {
    assert_eq!(combine(0x34, 0x12), 0x1234);
    assert_eq!(combine(0x34, 0x12), 4660);
}

#[test]
fn combine_minus_one() {
    assert_eq!(combine(0xFF, 0xFF), -1);
}

#[test]
fn combine_extremes() {
    assert_eq!(combine(0x00, 0x80), i16::MIN);
    assert_eq!(combine(0xFF, 0x7F), i16::MAX);
    assert_eq!(combine(0x00, 0x00), 0);
    assert_eq!(combine(0x01, 0x00), 1);
}

#[test]
fn accel_registers_add_in_either_order() {
    let lo = OutXLowA::from_bits(0x34);
    let hi = OutXHighA::from_bits(0x12);
    assert_eq!(lo + hi, 0x1234);
    assert_eq!(hi + lo, 0x1234);
    assert_eq!(OutYLowA::from_bits(0x00) + OutYHighA::from_bits(0xFF), -256);
    assert_eq!(OutZHighA::from_bits(0xFF) + OutZLowA::from_bits(0xFE), -2);
}

#[test]
fn mag_registers_add_in_either_order() {
    assert_eq!(OutXHighM::from_bits(0x01) + OutXLowM::from_bits(0x02), 0x0102);
    assert_eq!(OutYLowM::from_bits(0x02) + OutYHighM::from_bits(0x01), 0x0102);
    assert_eq!(OutZHighM::from_bits(0xFF) + OutZLowM::from_bits(0x00), -256);
}

#[test]
fn accel_triple_is_low_byte_first_in_x_y_z_order() {
    let raw = [0x34, 0x12, 0x78, 0x56, 0xFF, 0xFF];
    let r = assemble_triple(raw, SubDevice::Accelerometer);
    assert_eq!(r, I16x3::new(0x1234, 0x5678, -1));
}

#[test]
fn mag_triple_is_reordered_from_x_z_y_high_byte_first() {
    // Bus order: X high, X low, Z high, Z low, Y high, Y low.
    let raw = [0x01, 0x02, 0x03, 0x04, 0x05, 0x06];
    let r = assemble_triple(raw, SubDevice::Magnetometer);
    assert_eq!(r.x, 0x0102);
    assert_eq!(r.y, 0x0506);
    assert_eq!(r.z, 0x0304);
    let neg = assemble_triple([0xFF, 0xFE, 0x80, 0x00, 0x7F, 0xFF], SubDevice::Magnetometer);
    assert_eq!(neg, I16x3 { x: -2, y: i16::MAX, z: i16::MIN });
}

#[test]
fn sample_rate_follows_rate_code_and_power_mode() {
    let r = ControlRegister1A::new();
    assert_eq!(r.sample_rate_hz(), Some(0));
    assert_eq!(r.with_output_data_rate(AccelOdr::Hz400).sample_rate_hz(), Some(400));
    assert_eq!(r.with_output_data_rate(AccelOdr::Hz1).sample_rate_hz(), Some(1));
    assert_eq!(r.with_output_data_rate(AccelOdr::LpHz1620).sample_rate_hz(), Some(1620));
    let top = r.with_output_data_rate(AccelOdr::LpHz1620NormalHz5376);
    assert_eq!(top.sample_rate_hz(), Some(1344));
    assert_eq!(top.with_low_power_enable(true).sample_rate_hz(), Some(5376));
    assert_eq!(r.with_output_data_rate(AccelOdr::Reserved1010).sample_rate_hz(), None);
}
