//! Verified command tables and response decoding for the Sensirion SGP40 / SGP41 gas sensors.
//!
//! The bus traffic itself (writing a command, waiting, reading the checksummed answer) is
//! done by the caller; this crate says what to send, how long to wait, how much to read, and
//! what the answer means.

pub mod asynchronous;
pub mod blocking;
pub mod command;
pub mod measurement;
pub mod words;

pub use measurement::{RawMeasurement, TestResult};

use crate::command::{
    common_code_and_millis, converts_to, default_command_convert, is_common_command, millis,
    Command, CommandConvert,
};
use vstd::prelude::*;

verus! {

/// The I2C address of every SGP4x device.
pub const DEFAULT_I2C_ADDRESS: u8 = 0x59;

/// A member of the SGP4x family.
pub trait DeviceVariant {

}

/// The SGP40: a VOC sensor.
#[derive(Debug, Clone, Copy)]
pub struct Sgp40;

impl DeviceVariant for Sgp40 {

}

/// The SGP41: a VOC and NOx sensor.
#[derive(Debug, Clone, Copy)]
pub struct Sgp41;

impl DeviceVariant for Sgp41 {

}

/// Code and execution time in milliseconds of each command the SGP40 understands.
pub open spec fn sgp40_code_and_millis(c: Command) -> (u16, u64) {
    match c {
        Command::MeasureRawSignal => (0x260f, 30),
        Command::MeasureRawSignalWithCompensation(..) => (0x260f, 50),
        _ => common_code_and_millis(c),
    }
}

/// Code and execution time in milliseconds of each command the SGP41 understands.
pub open spec fn sgp41_code_and_millis(c: Command) -> (u16, u64) {
    match c {
        Command::ExecuteConditioning => (0x2612, 50),
        Command::MeasureRawSignal => (0x2619, 50),
        Command::MeasureRawSignalWithCompensation(..) => (0x2619, 50),
        _ => common_code_and_millis(c),
    }
}

impl Sgp40 {
    /// The bus form of `command` on an SGP40, which has no conditioning command.
    pub fn command_convert(command: Command) -> (r: CommandConvert)
        requires
            !(command is ExecuteConditioning),
        ensures
            converts_to(r, sgp40_code_and_millis(command)),
    {
        match command {
            Command::MeasureRawSignal => CommandConvert::new(0x260f, millis(30)),
            Command::MeasureRawSignalWithCompensation(..) => CommandConvert::new(0x260f, millis(50)),
            _ => default_command_convert(command),
        }
    }
}

impl Sgp41 {
    /// The bus form of `command` on an SGP41.
    pub fn command_convert(command: Command) -> (r: CommandConvert)
        ensures
            converts_to(r, sgp41_code_and_millis(command)),
    {
        match command {
            Command::ExecuteConditioning => CommandConvert::new(0x2612, millis(50)),
            Command::MeasureRawSignal => CommandConvert::new(0x2619, millis(50)),
            Command::MeasureRawSignalWithCompensation(..) => CommandConvert::new(0x2619, millis(50)),
            _ => default_command_convert(command),
        }
    }
}

/// The two variants send the self test, heater and serial-number commands alike.
pub proof fn lemma_variants_share_common_commands(c: Command)
    requires
        is_common_command(c),
    ensures
        sgp40_code_and_millis(c) == sgp41_code_and_millis(c),
{
}

/// A compensated measurement is the measurement command with other arguments: both go on the
/// bus with the same code.
pub proof fn lemma_compensation_keeps_measurement_code(t: measurements::Temperature, h: measurements::Humidity)
    ensures
        sgp40_code_and_millis(Command::MeasureRawSignalWithCompensation(t, h)).0
            == sgp40_code_and_millis(Command::MeasureRawSignal).0,
        sgp41_code_and_millis(Command::MeasureRawSignalWithCompensation(t, h)).0
            == sgp41_code_and_millis(Command::MeasureRawSignal).0,
{
}

/// A compensated measurement waits 50 ms on either variant, never less than the plain
/// measurement of the same variant (30 ms on the SGP40, 50 ms on the SGP41).
pub proof fn lemma_compensated_measurement_wait(t: measurements::Temperature, h: measurements::Humidity)
    ensures
        sgp40_code_and_millis(Command::MeasureRawSignalWithCompensation(t, h)).1 == 50,
        sgp41_code_and_millis(Command::MeasureRawSignalWithCompensation(t, h)).1 == 50,
        sgp40_code_and_millis(Command::MeasureRawSignal).1 == 30,
        sgp41_code_and_millis(Command::MeasureRawSignal).1 == 50,
        sgp40_code_and_millis(Command::MeasureRawSignalWithCompensation(t, h)).1
            >= sgp40_code_and_millis(Command::MeasureRawSignal).1,
        sgp41_code_and_millis(Command::MeasureRawSignalWithCompensation(t, h)).1
            >= sgp41_code_and_millis(Command::MeasureRawSignal).1,
{
}

/// The datasheet command set: every command's code and wait on each variant.
pub proof fn lemma_command_table(t: measurements::Temperature, h: measurements::Humidity)
    ensures
        sgp41_code_and_millis(Command::ExecuteConditioning) == (0x2612u16, 50u64),
        sgp41_code_and_millis(Command::MeasureRawSignal) == (0x2619u16, 50u64),
        sgp41_code_and_millis(Command::MeasureRawSignalWithCompensation(t, h)) == (0x2619u16, 50u64),
        sgp40_code_and_millis(Command::MeasureRawSignal) == (0x260fu16, 30u64),
        sgp40_code_and_millis(Command::MeasureRawSignalWithCompensation(t, h)) == (0x260fu16, 50u64),
        sgp40_code_and_millis(Command::ExecuteSelfTest) == (0x280eu16, 320u64),
        sgp41_code_and_millis(Command::ExecuteSelfTest) == (0x280eu16, 320u64),
        sgp40_code_and_millis(Command::HeaterDisable) == (0x3615u16, 1u64),
        sgp41_code_and_millis(Command::HeaterDisable) == (0x3615u16, 1u64),
        sgp40_code_and_millis(Command::SerialNumberFetch) == (0x3682u16, 1u64),
        sgp41_code_and_millis(Command::SerialNumberFetch) == (0x3682u16, 1u64),
{
}

} // verus!
