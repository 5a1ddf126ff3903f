//! Register transactions over a byte-oriented bus.
//!
//! Every transaction is a direct, blocking call into the [`Bus`]; a failure
//! of the bus is handed back to the caller unchanged, with no retry.
use crate::accel;
use crate::conversion::{assemble_triple, I16x3};
use crate::device::{RegisterId, SubDevice};
use crate::mag;
use crate::register::{Register, WritableRegister};
use vstd::prelude::*;

verus! {

/// The bus that carries the transactions, owned by one session at a time.
///
/// A bus shared between several sessions must serialize the transfers
/// itself; this layer takes no lock.
pub trait Bus {
    /// What the bus reports when a transfer fails.
    type Error;

    /// Sends `bytes` to the device at `address`.
    fn write(&mut self, address: u8, bytes: &[u8]) -> Result<(), Self::Error>;

    /// Sends `bytes` to the device at `address`, then reads `buffer.len()`
    /// bytes into `buffer` after a repeated start.
    fn write_read(&mut self, address: u8, bytes: &[u8], buffer: &mut [u8]) -> Result<
        (),
        Self::Error,
    >;
}

/// A write addressed by [`RegisterId`] failed.
#[derive(Debug, PartialEq, Eq)]
pub enum WriteError<E> {
    /// The register is read-only; nothing was sent.
    ReadOnly,
    /// The bus reported an error.
    Bus(E),
}

/// The two bytes that write `value` to its register: the sub-address, then
/// the encoded value.
pub fn write_frame<W: WritableRegister>(value: &W) -> (r: [u8; 2])
    ensures
        r@ == seq![W::spec_register_address(), value.raw_bits()],
{
    let frame: [u8; 2] = [W::register_address(), value.to_bits()];
    assert(frame@ =~= seq![W::spec_register_address(), value.raw_bits()]);
    frame
}

/// Reads a register: one single-byte read at the register's address, whose
/// byte is decoded with [`Register::from_bits`].
pub fn read_register<R: Register, B: Bus>(bus: &mut B) -> (r: Result<R, B::Error>) {
    let sub: [u8; 1] = [R::register_address()];
    let mut buffer: [u8; 1] = [0u8];
    match bus.write_read(R::device_address(), &sub, &mut buffer) {
        Ok(()) => Ok(R::from_bits(buffer[0])),
        Err(e) => Err(e),
    }
}

/// Writes a register: one write of [`write_frame`] to the register's
/// sub-device. Only read-write registers can be written.
pub fn write_register<W: WritableRegister, B: Bus>(bus: &mut B, value: &W) -> (r: Result<
    (),
    B::Error,
>) {
    let frame = write_frame(value);
    bus.write(W::device_address(), &frame)
}

/// The frame that a read-modify-write sends after reading `current`: the
/// register's sub-address, then the encoding of `f` applied to the decoded
/// value.
pub fn modify_frame<W: WritableRegister, F: Fn(W) -> W>(current: u8, f: F) -> (r: [u8; 2])
    requires
        f.requires((W::spec_from_bits(current),)),
    ensures
        exists|next: W|
            #[trigger] f.ensures((W::spec_from_bits(current),), next) && r@ == seq![
                W::spec_register_address(),
                next.raw_bits(),
            ],
{
    let next = f(W::from_bits(current));
    write_frame(&next)
}

/// Reads a register, applies `f` to its value and writes the result back,
/// as [`modify_frame`] says.
///
/// These are two separate bus transactions, not one atomic step: whatever
/// changes the register between the read and the write is overwritten.
/// Callers that share the device must provide their own exclusion.
pub fn modify_register<W: WritableRegister, B: Bus, F: Fn(W) -> W>(bus: &mut B, f: F) -> (r: Result<
    (),
    B::Error,
>)
    requires
        forall|v: W| f.requires((v,)),
{
    let sub: [u8; 1] = [W::register_address()];
    let mut buffer: [u8; 1] = [0u8];
    match bus.write_read(W::device_address(), &sub, &mut buffer) {
        Ok(()) => {},
        Err(e) => {
            return Err(e);
        },
    }
    let frame = modify_frame(buffer[0], f);
    bus.write(W::device_address(), &frame)
}

/// Writes the byte `bits` to the register `register`, refusing read-only
/// registers before any bus traffic.
pub fn write_raw<B: Bus>(bus: &mut B, register: RegisterId, bits: u8) -> (r: Result<
    (),
    WriteError<B::Error>,
>)
    ensures
        !register.spec_is_writable() ==> (r matches Err(WriteError::ReadOnly)),
        !register.spec_is_writable() ==> *final(bus) == *old(bus),
        register.spec_is_writable() ==> !(r matches Err(WriteError::ReadOnly)),
{
    if !register.is_writable() {
        return Err(WriteError::ReadOnly);
    }
    let frame: [u8; 2] = [register.register_address(), bits];
    match bus.write(register.sub_device().device_address(), &frame) {
        Ok(()) => Ok(()),
        Err(e) => Err(WriteError::Bus(e)),
    }
}

/// Reads the byte of the register `register`.
pub fn read_raw<B: Bus>(bus: &mut B, register: RegisterId) -> (r: Result<u8, B::Error>) {
    let sub: [u8; 1] = [register.register_address()];
    let mut buffer: [u8; 1] = [0u8];
    match bus.write_read(register.sub_device().device_address(), &sub, &mut buffer) {
        Ok(()) => Ok(buffer[0]),
        Err(e) => Err(e),
    }
}

/// The sub-address the magnetometer reads after `address` within one burst.
///
/// After `OUT_Y_L_M` the pointer goes back to `OUT_X_H_M`, so that the three
/// axes can be read over and over; after the first identification register
/// `IRA_REG_M`, or any later one, it goes back to `CRA_REG_M`.
pub open spec fn mag_next_address(address: u8) -> u8 {
    if address == mag::RegisterAddress::OUT_Y_L_M.spec_addr() {
        mag::RegisterAddress::OUT_X_H_M.spec_addr()
    } else if address >= mag::RegisterAddress::IRA_REG_M.spec_addr() {
        mag::RegisterAddress::CRA_REG_M.spec_addr()
    } else {
        (address + 1) as u8
    }
}

/// The sub-address whose content lands at position `i` of a burst read that
/// starts at `start` on `device`.
///
/// The accelerometer simply counts up; the magnetometer wraps around as
/// [`mag_next_address`] says.
pub open spec fn burst_address(device: SubDevice, start: u8, i: nat) -> u8
    decreases i,
{
    match device {
        SubDevice::Accelerometer => (start + i) as u8,
        SubDevice::Magnetometer => if i == 0 {
            start
        } else {
            mag_next_address(burst_address(device, start, (i - 1) as nat))
        },
    }
}

/// The sub-address byte that starts a burst read at `start`.
pub open spec fn spec_burst_sub_address(device: SubDevice, start: u8) -> u8 {
    match device {
        SubDevice::Accelerometer => start | 0x80,
        SubDevice::Magnetometer => start,
    }
}

/// Returns the sub-address byte that starts a burst read at `start`: for the
/// accelerometer bit 7 is set, which asks for auto-increment; the
/// magnetometer increments on its own.
pub fn burst_sub_address(device: SubDevice, start: u8) -> (r: u8)
    requires
        start < 0x80,
    ensures
        r == spec_burst_sub_address(device, start),
        device == SubDevice::Accelerometer ==> r == start + 0x80,
        device == SubDevice::Magnetometer ==> r == start,
{
    match device {
        SubDevice::Accelerometer => {
            assert(start < 0x80 ==> start | 0x80 == start + 0x80) by (bit_vector);
            start | 0x80
        },
        SubDevice::Magnetometer => start,
    }
}

/// Lists the sub-addresses whose contents a burst read of `count` bytes
/// from `start` on `device` returns, in order.
///
/// A burst is meaningful only where this list counts up from `start`; past a
/// wrap-around the device delivers other registers, and no error tells.
pub fn burst_addresses(device: SubDevice, start: u8, count: usize) -> (r: Vec<u8>)
    requires
        start < 0x80,
        device == SubDevice::Accelerometer ==> start + count <= 0x80,
    ensures
        r@.len() == count,
        forall|i: int| 0 <= i < count ==> r@[i] == burst_address(device, start, i as nat),
{
    let mut addresses: Vec<u8> = Vec::new();
    let mut address: u8 = start;
    let mut i: usize = 0;
    while i < count
        invariant
            i <= count,
            addresses@.len() == i,
            device == SubDevice::Accelerometer ==> start + count <= 0x80,
            i < count ==> address == burst_address(device, start, i as nat),
            forall|j: int| 0 <= j < i ==> addresses@[j] == burst_address(device, start, j as nat),
        decreases count - i,
    {
        addresses.push(address);
        i = i + 1;
        if i < count {
            address = match device {
                SubDevice::Accelerometer => address + 1,
                SubDevice::Magnetometer => {
                    if address == mag::RegisterAddress::OUT_Y_L_M.addr() {
                        mag::RegisterAddress::OUT_X_H_M.addr()
                    } else if address >= mag::RegisterAddress::IRA_REG_M.addr() {
                        mag::RegisterAddress::CRA_REG_M.addr()
                    } else {
                        address + 1
                    }
                },
            };
        }
    }
    addresses
}

/// Reads `buffer.len()` consecutive registers of `device` from `start` in one
/// transfer. See [`burst_addresses`] for the registers that arrive.
pub fn burst_read<B: Bus>(bus: &mut B, device: SubDevice, start: u8, buffer: &mut [u8]) -> (r: Result<
    (),
    B::Error,
>)
    requires
        start < 0x80,
{
    let sub: [u8; 1] = [burst_sub_address(device, start)];
    bus.write_read(device.device_address(), &sub, buffer)
}

/// Reads the three accelerometer axes in one burst from `OUT_X_L_A`.
pub fn read_accel_axes<B: Bus>(bus: &mut B) -> (r: Result<I16x3, B::Error>) {
    let mut raw: [u8; 6] = [0u8; 6];
    match burst_read(bus, SubDevice::Accelerometer, accel::RegisterAddress::OUT_X_L_A.addr(), &mut raw) {
        Ok(()) => Ok(assemble_triple(raw, SubDevice::Accelerometer)),
        Err(e) => Err(e),
    }
}

/// Reads the three magnetometer axes in one burst from `OUT_X_H_M`, and
/// returns them in X, Y, Z order.
pub fn read_mag_axes<B: Bus>(bus: &mut B) -> (r: Result<I16x3, B::Error>) {
    let mut raw: [u8; 6] = [0u8; 6];
    match burst_read(bus, SubDevice::Magnetometer, mag::RegisterAddress::OUT_X_H_M.addr(), &mut raw) {
        Ok(()) => Ok(assemble_triple(raw, SubDevice::Magnetometer)),
        Err(e) => Err(e),
    }
}

} // verus!
