use lsm303dlhc_registers::accel::{
    AccelOdr, ControlRegister1A, FifoControlRegisterA, FifoMode, StatusRegisterA,
};
use lsm303dlhc_registers::conversion::I16x3;
use lsm303dlhc_registers::device::{RegisterId, SubDevice};
use lsm303dlhc_registers::mag::{ConfigurationARegisterM, MagOdr, ModeRegisterM};
use lsm303dlhc_registers::transaction::{
    burst_addresses, burst_read, burst_sub_address, modify_frame, modify_register, read_accel_axes,
    read_mag_axes, read_raw, read_register, write_frame, write_raw, write_register, Bus,
    WriteError,
};
use lsm303dlhc_registers::{accel, mag};

#[derive(Debug, Clone, PartialEq, Eq)]
enum Call {
    Write(u8, Vec<u8>),
    WriteRead(u8, Vec<u8>, usize),
}

#[derive(Debug, PartialEq, Eq)]
struct Nack;

/// A bus that records every call and answers reads from a fixed script.
struct MockBus {
    calls: Vec<Call>,
    replies: Vec<Vec<u8>>,
    fail: bool,
}

impl MockBus {
    fn new(replies: Vec<Vec<u8>>) -> Self {
        MockBus { calls: Vec::new(), replies, fail: false }
    }

    fn failing() -> Self {
        MockBus { calls: Vec::new(), replies: Vec::new(), fail: true }
    }
}

impl Bus for MockBus {
    type Error = Nack;

    fn write(&mut self, address: u8, bytes: &[u8]) -> Result<(), Nack> {
        self.calls.push(Call::Write(address, bytes.to_vec()));
        if self.fail {
            Err(Nack)
        } else {
            Ok(())
        }
    }

    fn write_read(&mut self, address: u8, bytes: &[u8], buffer: &mut [u8]) -> Result<(), Nack> {
        self.calls.push(Call::WriteRead(address, bytes.to_vec(), buffer.len()));
        if self.fail {
            return Err(Nack);
        }
        let reply = self.replies.remove(0);
        buffer.copy_from_slice(&reply);
        Ok(())
    }
}

#[test]
fn write_to_read_only_register_sends_nothing() {
    let mut bus = MockBus::new(Vec::new());
    let r = write_raw(&mut bus, RegisterId::Accelerometer(accel::RegisterAddress::STATUS_REG_A), 0xFF);
    assert_eq!(r, Err(WriteError::ReadOnly));
    let r = write_raw(&mut bus, RegisterId::Magnetometer(mag::RegisterAddress::IRA_REG_M), 0x00);
    assert_eq!(r, Err(WriteError::ReadOnly));
    let r = write_raw(&mut bus, RegisterId::Magnetometer(mag::RegisterAddress::OUT_X_H_M), 0x00);
    assert_eq!(r, Err(WriteError::ReadOnly));
    assert!(bus.calls.is_empty());
}

#[test]
fn write_to_writable_register_sends_one_frame() {
    let mut bus = MockBus::new(Vec::new());
    let r = write_raw(&mut bus, RegisterId::Magnetometer(mag::RegisterAddress::MR_REG_M), 0x00);
    assert_eq!(r, Ok(()));
    assert_eq!(bus.calls, vec![Call::Write(0b0011110, vec![0x02, 0x00])]);
}

#[test]
fn write_raw_hands_back_bus_error() {
    let mut bus = MockBus::failing();
    let r = write_raw(&mut bus, RegisterId::Accelerometer(accel::RegisterAddress::CTRL_REG1_A), 0x57);
    assert_eq!(r, Err(WriteError::Bus(Nack)));
}

#[test]
fn read_register_decodes_the_byte_read() {
    let mut bus = MockBus::new(vec![vec![0b1001_0010]]);
    let s: StatusRegisterA = read_register(&mut bus).unwrap();
    assert!(s.zyx_overrun() && s.x_overrun() && s.y_data_available());
    assert_eq!(bus.calls, vec![Call::WriteRead(0b0011001, vec![0x27], 1)]);
}

#[test]
fn read_register_hands_back_bus_error() {
    let mut bus = MockBus::failing();
    let r: Result<ControlRegister1A, Nack> = read_register(&mut bus);
    assert_eq!(r, Err(Nack));
}

#[test]
fn write_register_sends_address_then_value() {
    let mut bus = MockBus::new(Vec::new());
    let v = ControlRegister1A::new().with_output_data_rate(AccelOdr::Hz400);
    assert_eq!(write_frame(&v), [0x20, 0b0111_0111]);
    write_register(&mut bus, &v).unwrap();
    assert_eq!(bus.calls, vec![Call::Write(0b0011001, vec![0x20, 0b0111_0111])]);
}

#[test]
fn modify_reads_then_writes_keeping_other_bits() {
    // The magnetometer wakes up asleep; clear the sleep bit only.
    let mut bus = MockBus::new(vec![vec![0b0000_0011]]);
    modify_register(&mut bus, |m: ModeRegisterM| m.with_sleep_mode(false)).unwrap();
    assert_eq!(
        bus.calls,
        vec![
            Call::WriteRead(0b0011110, vec![0x02], 1),
            Call::Write(0b0011110, vec![0x02, 0b0000_0001]),
        ]
    );
}

#[test]
fn modify_stops_after_failed_read() {
    let mut bus = MockBus::failing();
    let r = modify_register(&mut bus, |c: FifoControlRegisterA| c.with_fifo_mode(FifoMode::Stream));
    assert_eq!(r, Err(Nack));
    assert_eq!(bus.calls.len(), 1);
}

#[test]
fn read_raw_returns_the_byte() {
    let mut bus = MockBus::new(vec![vec![0x48]]);
    let r = read_raw(&mut bus, RegisterId::Magnetometer(mag::RegisterAddress::IRA_REG_M));
    assert_eq!(r, Ok(0x48));
    assert_eq!(bus.calls, vec![Call::WriteRead(0b0011110, vec![0x0A], 1)]);
}

#[test]
fn accel_burst_sets_auto_increment_bit() {
    assert_eq!(burst_sub_address(SubDevice::Accelerometer, 0x28), 0xA8);
    assert_eq!(burst_sub_address(SubDevice::Magnetometer, 0x03), 0x03);
    let mut bus = MockBus::new(vec![vec![0x34, 0x12, 0x78, 0x56, 0xFF, 0xFF]]);
    let r = read_accel_axes(&mut bus).unwrap();
    assert_eq!(r, I16x3::new(0x1234, 0x5678, -1));
    assert_eq!(bus.calls, vec![Call::WriteRead(0b0011001, vec![0xA8], 6)]);
}

#[test]
fn mag_burst_reorders_axes() {
    let mut bus = MockBus::new(vec![vec![0x01, 0x02, 0x03, 0x04, 0x05, 0x06]]);
    let r = read_mag_axes(&mut bus).unwrap();
    assert_eq!(r, I16x3::new(0x0102, 0x0506, 0x0304));
    assert_eq!(bus.calls, vec![Call::WriteRead(0b0011110, vec![0x03], 6)]);
}

#[test]
fn burst_read_fills_the_buffer() {
    let mut bus = MockBus::new(vec![vec![9, 8]]);
    let mut buffer = [0u8; 2];
    burst_read(&mut bus, SubDevice::Magnetometer, 0x31, &mut buffer).unwrap();
    assert_eq!(buffer, [9, 8]);
    assert_eq!(read_accel_axes(&mut MockBus::failing()), Err(Nack));
}

#[test]
fn mag_burst_wraps_after_y_low_and_identification() {
    assert_eq!(burst_addresses(SubDevice::Magnetometer, 0x03, 6), vec![3, 4, 5, 6, 7, 8]);
    assert_eq!(burst_addresses(SubDevice::Magnetometer, 0x03, 8), vec![3, 4, 5, 6, 7, 8, 3, 4]);
    assert_eq!(burst_addresses(SubDevice::Magnetometer, 0x09, 3), vec![9, 10, 0]);
    assert_eq!(burst_addresses(SubDevice::Magnetometer, 0x0B, 3), vec![11, 0, 1]);
    assert_eq!(burst_addresses(SubDevice::Magnetometer, 0x31, 2), vec![0x31, 0]);
    assert_eq!(burst_addresses(SubDevice::Magnetometer, 0x00, 0), Vec::<u8>::new());
}

#[test]
fn accel_burst_counts_up() {
    assert_eq!(
        burst_addresses(SubDevice::Accelerometer, 0x28, 6),
        vec![0x28, 0x29, 0x2A, 0x2B, 0x2C, 0x2D]
    );
}

#[test]
fn typed_write_of_config_a_register() {
    let mut bus = MockBus::new(Vec::new());
    let cra = ConfigurationARegisterM::new().with_temp_en(true).with_data_output_rate(MagOdr::Hz220);
    write_register(&mut bus, &cra).unwrap();
    assert_eq!(bus.calls, vec![Call::Write(0b0011110, vec![0x00, 0b1001_1100])]);
}

#[test]
fn modify_frame_encodes_the_transformed_value() {
    let frame = modify_frame(0b0000_0111, |c: ControlRegister1A| {
        c.with_output_data_rate(AccelOdr::Hz100)
    });
    assert_eq!(frame, [0x20, 0b0101_0111]);
    let frame = modify_frame(0b1111_1111, |m: ModeRegisterM| m.with_single_conversion(false));
    assert_eq!(frame, [0x02, 0b1111_1110]);
}
