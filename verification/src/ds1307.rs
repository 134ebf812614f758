//! Driver for a register-addressed battery-backed clock that stores
//! wall-clock time as packed BCD.
//!
//! The device keeps seconds, minutes, hours, day, month and a two-digit year
//! in one register each; the seconds register carries the run-bit in bit 7
//! and the hours register a 12/24-hour flag in bit 6. `start` and `stop`
//! read-modify-write the run-bit and skip the write when the bit already has
//! the target value. Any single register access failure aborts the whole
//! accessor with no partial state mutation.

use vstd::prelude::*;

verus! {

use crate::hal::RegisterBus;
use crate::time::{Date, DateTime, Time};

pub struct Register;

impl Register {
    pub const SECONDS: u8 = 0x00;

    pub const MINUTES: u8 = 0x01;

    pub const HOURS: u8 = 0x02;

    pub const DOW: u8 = 0x03;

    pub const DOM: u8 = 0x04;

    pub const MONTH: u8 = 0x05;

    pub const YEAR: u8 = 0x06;

    pub const SQWOUT: u8 = 0x07;

    pub const RAM_BEGIN: u8 = 0x08;

    pub const RAM_END: u8 = 0x3F;
}

pub struct BitFlags;

impl BitFlags {
    pub const H24_H12: u8 = 0b0100_0000;

    pub const AM_PM: u8 = 0b0010_0000;

    pub const CH: u8 = 0b1000_0000;

    pub const SQWE: u8 = 0b0001_0000;

    pub const OUTLEVEL: u8 = 0b1000_0000;

    pub const OUTRATERS0: u8 = 0b0000_0001;

    pub const OUTRATERS1: u8 = 0b0000_0010;
}

/// The device's fixed 7-bit bus address.
pub const ADDR: u8 = 0b110_1000;

/// Any register read or write failure; fatal to the caller, never retried.
#[derive(PartialEq, Eq, Structural, Clone, Copy, Debug)]
pub enum Error {
    I2C,
}

/// Two-nibble packed BCD, decoded as ten times the high nibble plus the low
/// nibble.
pub open spec fn bcd_decode(bcd: u8) -> u8 {
    ((bcd >> 4) * 10 + (bcd & 0xf)) as u8
}

/// The register file after setting `bitmask` in `register`, skipping the
/// write when the bits are already set.
pub open spec fn with_flag_set(m: Map<u8, u8>, register: u8, bitmask: u8) -> Map<u8, u8> {
    if m[register] & bitmask == 0 {
        m.insert(register, m[register] | bitmask)
    } else {
        m
    }
}

/// The register file after clearing `bitmask` in `register`, skipping the
/// write when the bits are already clear.
pub open spec fn with_flag_cleared(m: Map<u8, u8>, register: u8, bitmask: u8) -> Map<u8, u8> {
    if m[register] & bitmask != 0 {
        m.insert(register, m[register] & !bitmask)
    } else {
        m
    }
}

/// The time held in a register file, fields decoded from packed BCD with the
/// control bits masked out.
pub open spec fn time_of_regs(m: Map<u8, u8>) -> Time {
    Time {
        hour: bcd_decode(m[Register::HOURS] & !BitFlags::H24_H12) as u16,
        minute: bcd_decode(m[Register::MINUTES]) as u16,
        second: bcd_decode(m[Register::SECONDS] & !BitFlags::CH) as u16,
    }
}

/// The date held in a register file; the two-digit year is offset by 2000.
pub open spec fn date_of_regs(m: Map<u8, u8>) -> Date {
    Date {
        year: (bcd_decode(m[Register::YEAR]) + 2000) as u16,
        month: bcd_decode(m[Register::MONTH]) as u16,
        day: bcd_decode(m[Register::DOM]) as u16,
    }
}

pub struct Ds1307<I2C> {
    i2c: I2C,
}

impl<I2C: RegisterBus> Ds1307<I2C> {
    /// The device's register file, as the bus models it.
    pub closed spec fn regs(&self) -> Map<u8, u8> {
        self.i2c.regs()
    }

    /// Write transactions the driver has put on the bus.
    pub closed spec fn writes_attempted(&self) -> nat {
        self.i2c.writes_attempted()
    }

    pub fn new(i2c: I2C) -> (r: Self)
        ensures
            r.regs() == i2c.regs(),
            r.writes_attempted() == i2c.writes_attempted(),
    {
        Self { i2c }
    }

    pub fn destroy(self) -> (r: I2C)
        ensures
            r.regs() == self.regs(),
            r.writes_attempted() == self.writes_attempted(),
    {
        self.i2c
    }

    /// Whether the run-bit of the seconds register is set. Reads one
    /// register; never writes.
    pub fn is_running(&mut self) -> (r: Result<bool, Error>)
        ensures
            final(self).regs() == old(self).regs(),
            final(self).writes_attempted() == old(self).writes_attempted(),
            r matches Ok(b) ==> b == (old(self).regs()[Register::SECONDS] & BitFlags::CH != 0),
    {
        self.register_bit_flag_high(Register::SECONDS, BitFlags::CH)
    }

    /// Set the run-bit of the seconds register; the write is skipped when the
    /// bit is already set, so no redundant bus traffic occurs.
    pub fn stop(&mut self) -> (r: Result<(), Error>)
        ensures
            r matches Ok(()) ==> final(self).regs() == with_flag_set(
                old(self).regs(),
                Register::SECONDS,
                BitFlags::CH,
            ),
            r matches Err(_) ==> final(self).regs() == old(self).regs(),
            (old(self).regs()[Register::SECONDS] & BitFlags::CH != 0 && r is Ok)
                ==> final(self).writes_attempted() == old(self).writes_attempted(),
            final(self).writes_attempted() <= old(self).writes_attempted() + 1,
    {
        self.set_register_bit_flag(Register::SECONDS, BitFlags::CH)
    }

    /// Clear the run-bit of the seconds register; the write is skipped when
    /// the bit is already clear, so no redundant bus traffic occurs.
    pub fn start(&mut self) -> (r: Result<(), Error>)
        ensures
            r matches Ok(()) ==> final(self).regs() == with_flag_cleared(
                old(self).regs(),
                Register::SECONDS,
                BitFlags::CH,
            ),
            r matches Err(_) ==> final(self).regs() == old(self).regs(),
            (old(self).regs()[Register::SECONDS] & BitFlags::CH == 0 && r is Ok)
                ==> final(self).writes_attempted() == old(self).writes_attempted(),
            final(self).writes_attempted() <= old(self).writes_attempted() + 1,
    {
        self.clear_register_bit_flag(Register::SECONDS, BitFlags::CH)
    }

    /// The seconds register, run-bit masked out, decoded from packed BCD.
    pub fn get_seconds(&mut self) -> (r: Result<u8, Error>)
        ensures
            final(self).regs() == old(self).regs(),
            final(self).writes_attempted() == old(self).writes_attempted(),
            r matches Ok(v) ==> v == bcd_decode(old(self).regs()[Register::SECONDS] & !BitFlags::CH),
    {
        let data = self.read_register(Register::SECONDS)?;
        Ok(packed_bcd_to_decimal(data & !BitFlags::CH))
    }

    /// The minutes register, decoded from packed BCD.
    pub fn get_minutes(&mut self) -> (r: Result<u8, Error>)
        ensures
            final(self).regs() == old(self).regs(),
            final(self).writes_attempted() == old(self).writes_attempted(),
            r matches Ok(v) ==> v == bcd_decode(old(self).regs()[Register::MINUTES]),
    {
        let data = self.read_register(Register::MINUTES)?;
        Ok(packed_bcd_to_decimal(data))
    }

    /// The hours register, 12/24-hour flag masked out, decoded from packed
    /// BCD.
    pub fn get_hours(&mut self) -> (r: Result<u8, Error>)
        ensures
            final(self).regs() == old(self).regs(),
            final(self).writes_attempted() == old(self).writes_attempted(),
            r matches Ok(v) ==> v == bcd_decode(
                old(self).regs()[Register::HOURS] & !BitFlags::H24_H12,
            ),
    {
        let data = self.read_register(Register::HOURS)?;
        Ok(packed_bcd_to_decimal(data & !BitFlags::H24_H12))
    }

    /// The day-of-month register, decoded from packed BCD.
    fn get_day(&mut self) -> (r: Result<u8, Error>)
        ensures
            final(self).regs() == old(self).regs(),
            final(self).writes_attempted() == old(self).writes_attempted(),
            r matches Ok(v) ==> v == bcd_decode(old(self).regs()[Register::DOM]),
    {
        let data = self.read_register(Register::DOM)?;
        Ok(packed_bcd_to_decimal(data))
    }

    /// The month register, decoded from packed BCD.
    fn get_month(&mut self) -> (r: Result<u8, Error>)
        ensures
            final(self).regs() == old(self).regs(),
            final(self).writes_attempted() == old(self).writes_attempted(),
            r matches Ok(v) ==> v == bcd_decode(old(self).regs()[Register::MONTH]),
    {
        let data = self.read_register(Register::MONTH)?;
        Ok(packed_bcd_to_decimal(data))
    }

    /// The year register, decoded from packed BCD and offset by 2000.
    fn get_year(&mut self) -> (r: Result<u16, Error>)
        ensures
            final(self).regs() == old(self).regs(),
            final(self).writes_attempted() == old(self).writes_attempted(),
            r matches Ok(v) ==> v == bcd_decode(old(self).regs()[Register::YEAR]) + 2000,
    {
        let data = self.read_register(Register::YEAR)?;
        Ok(packed_bcd_to_decimal(data) as u16 + 2000)
    }

    /// The wall-clock time composed from the hours, minutes and seconds
    /// registers; any register failure aborts with no partial mutation.
    pub fn get_time(&mut self) -> (r: Result<Time, Error>)
        ensures
            final(self).regs() == old(self).regs(),
            final(self).writes_attempted() == old(self).writes_attempted(),
            r matches Ok(t) ==> t == time_of_regs(old(self).regs()),
    {
        let hours = self.get_hours()?;
        let minutes = self.get_minutes()?;
        let seconds = self.get_seconds()?;
        Ok(Time::from_hms(hours as u16, minutes as u16, seconds as u16))
    }

    /// The calendar date composed from the year, month and day registers; any
    /// register failure aborts with no partial mutation.
    pub fn get_date(&mut self) -> (r: Result<Date, Error>)
        ensures
            final(self).regs() == old(self).regs(),
            final(self).writes_attempted() == old(self).writes_attempted(),
            r matches Ok(d) ==> d == date_of_regs(old(self).regs()),
    {
        let year = self.get_year()?;
        let month = self.get_month()?;
        let day = self.get_day()?;
        Ok(Date::from_ymd(year, month as u16, day as u16))
    }

    /// The full timestamp composed from the date and time registers; any
    /// register failure aborts with no partial mutation.
    pub fn get_datetime(&mut self) -> (r: Result<DateTime, Error>)
        ensures
            final(self).regs() == old(self).regs(),
            final(self).writes_attempted() == old(self).writes_attempted(),
            r matches Ok(dt) ==> dt == (DateTime {
                date: date_of_regs(old(self).regs()),
                time: time_of_regs(old(self).regs()),
            }),
    {
        let date = self.get_date()?;
        let time = self.get_time()?;
        Ok(DateTime { date, time })
    }

    fn register_bit_flag_high(&mut self, address: u8, bitmask: u8) -> (r: Result<bool, Error>)
        ensures
            final(self).regs() == old(self).regs(),
            final(self).writes_attempted() == old(self).writes_attempted(),
            r matches Ok(b) ==> b == (old(self).regs()[address] & bitmask != 0),
    {
        let data = self.read_register(address)?;
        Ok((data & bitmask) != 0)
    }

    fn set_register_bit_flag(&mut self, address: u8, bitmask: u8) -> (r: Result<(), Error>)
        ensures
            r matches Ok(()) ==> final(self).regs() == with_flag_set(
                old(self).regs(),
                address,
                bitmask,
            ),
            r matches Err(_) ==> final(self).regs() == old(self).regs(),
            (old(self).regs()[address] & bitmask != 0 && r is Ok)
                ==> final(self).writes_attempted() == old(self).writes_attempted(),
            final(self).writes_attempted() <= old(self).writes_attempted() + 1,
    {
        let data = self.read_register(address)?;
        if (data & bitmask) == 0 {
            self.write_register(address, data | bitmask)
        } else {
            Ok(())
        }
    }

    fn clear_register_bit_flag(&mut self, address: u8, bitmask: u8) -> (r: Result<(), Error>)
        ensures
            r matches Ok(()) ==> final(self).regs() == with_flag_cleared(
                old(self).regs(),
                address,
                bitmask,
            ),
            r matches Err(_) ==> final(self).regs() == old(self).regs(),
            (old(self).regs()[address] & bitmask == 0 && r is Ok)
                ==> final(self).writes_attempted() == old(self).writes_attempted(),
            final(self).writes_attempted() <= old(self).writes_attempted() + 1,
    {
        let data = self.read_register(address)?;
        if (data & bitmask) != 0 {
            self.write_register(address, data & !bitmask)
        } else {
            Ok(())
        }
    }

    fn write_register(&mut self, register: u8, data: u8) -> (r: Result<(), Error>)
        ensures
            final(self).writes_attempted() == old(self).writes_attempted() + 1,
            r matches Ok(()) ==> final(self).regs() == old(self).regs().insert(register, data),
            r matches Err(_) ==> final(self).regs() == old(self).regs(),
    {
        match self.i2c.write(ADDR, register, data) {
            Ok(()) => Ok(()),
            Err(_) => Err(Error::I2C),
        }
    }

    fn read_register(&mut self, register: u8) -> (r: Result<u8, Error>)
        ensures
            final(self).regs() == old(self).regs(),
            final(self).writes_attempted() == old(self).writes_attempted(),
            r matches Ok(b) ==> b == old(self).regs()[register],
    {
        match self.i2c.write_read(ADDR, register) {
            Ok(b) => Ok(b),
            Err(_) => Err(Error::I2C),
        }
    }
}

/// Decode two-nibble packed BCD: ten times the high nibble plus the low
/// nibble.
pub fn packed_bcd_to_decimal(bcd: u8) -> (r: u8)
    ensures
        r == bcd_decode(bcd),
{
    assert((bcd >> 4) <= 15 && (bcd & 0xf) <= 15) by (bit_vector);
    (bcd >> 4) * 10 + (bcd & 0xf)
}

/// Law: stopping the clock leaves the run-bit set, and starting it afterwards
/// leaves the run-bit clear, whatever register file the device held before.
pub proof fn lemma_stop_then_start_toggles_run_bit(m: Map<u8, u8>)
    ensures
        with_flag_set(m, Register::SECONDS, BitFlags::CH)[Register::SECONDS] & BitFlags::CH != 0,
        with_flag_cleared(
            with_flag_set(m, Register::SECONDS, BitFlags::CH),
            Register::SECONDS,
            BitFlags::CH,
        )[Register::SECONDS] & BitFlags::CH == 0,
{
    let b = m[Register::SECONDS];
    assert((b | 0x80u8) & 0x80u8 != 0) by (bit_vector);
    assert((b & !0x80u8) & 0x80u8 == 0) by (bit_vector);
    assert(((b | 0x80u8) & !0x80u8) & 0x80u8 == 0) by (bit_vector);
}

} // verus!
