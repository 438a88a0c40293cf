//! The asynchronous drivers: one type per variant, always at the default address. Unlike the
//! blocking driver, they send the argument words `DEFAULT_FIRST_ARG, DEFAULT_SECOND_ARG` with
//! a measurement that is not compensated. The exchanges are described by the `*_transfer`
//! methods.

use measurements::{Humidity, Temperature};
use vstd::prelude::*;

use crate::command::{
    converts_to, transfer_is, Command, CommandConvert, Transfer, DEFAULT_FIRST_ARG,
    DEFAULT_SECOND_ARG, ONE_WORD_LEN, TWO_WORDS_LEN,
};
use crate::{sgp40_code_and_millis, sgp41_code_and_millis, DEFAULT_I2C_ADDRESS};

verus! {

/// An asynchronous driver for the SGP40.
pub struct Sgp40<I2C, D> {
    i2c: I2C,
    delay: D,
}

impl<I2C, D> Sgp40<I2C, D> {
    /// The bus the driver talks on.
    pub closed spec fn bus(self) -> I2C {
        self.i2c
    }

    /// The delay provider.
    pub closed spec fn delay_provider(self) -> D {
        self.delay
    }

    /// Creates a driver for an SGP40 on `i2c`.
    pub fn new(i2c: I2C, delay: D) -> (r: Self)
        ensures
            r.bus() == i2c,
            r.delay_provider() == delay,
    {
        Self { i2c, delay }
    }

    /// The device address: always the default one.
    pub fn address(&self) -> (r: u8)
        ensures
            r == DEFAULT_I2C_ADDRESS,
    {
        DEFAULT_I2C_ADDRESS
    }

    /// The bus, for the exchanges.
    pub fn i2c(&mut self) -> (r: &mut I2C)
        ensures
            *r == old(self).bus(),
            final(self).bus() == *final(r),
            final(self).delay_provider() == old(self).delay_provider(),
    {
        &mut self.i2c
    }

    /// The delay provider, for the waits between command and answer.
    pub fn delay(&mut self) -> (r: &mut D)
        ensures
            *r == old(self).delay_provider(),
            final(self).delay_provider() == *final(r),
            final(self).bus() == old(self).bus(),
    {
        &mut self.delay
    }

    /// The bus form of `command` on an SGP40, which has no conditioning command.
    pub fn command_convert(&self, command: Command) -> (r: CommandConvert)
        requires
            !(command is ExecuteConditioning),
        ensures
            converts_to(r, sgp40_code_and_millis(command)),
    {
        crate::Sgp40::command_convert(command)
    }

    /// The measurement without humidity compensation: answered by one word, the VOC signal.
    pub fn measure_raw_signals_transfer(&self) -> (t: Transfer)
        ensures
            transfer_is(
                t,
                sgp40_code_and_millis(Command::MeasureRawSignal),
                Some((DEFAULT_FIRST_ARG, DEFAULT_SECOND_ARG)),
                ONE_WORD_LEN,
            ),
    {
        Transfer {
            command: self.command_convert(Command::MeasureRawSignal),
            args: Some((DEFAULT_FIRST_ARG, DEFAULT_SECOND_ARG)),
            read_len: ONE_WORD_LEN,
        }
    }

    /// The measurement compensated for `temperature` and `humidity`, sent as the argument
    /// words `temperature_ticks` and `humidity_ticks`: answered by one word, the VOC signal.
    pub fn measure_raw_signals_with_compensation_transfer(
        &self,
        temperature: Temperature,
        humidity: Humidity,
        temperature_ticks: u16,
        humidity_ticks: u16,
    ) -> (t: Transfer)
        ensures
            transfer_is(
                t,
                sgp40_code_and_millis(Command::MeasureRawSignalWithCompensation(temperature, humidity)),
                Some((temperature_ticks, humidity_ticks)),
                ONE_WORD_LEN,
            ),
    {
        Transfer {
            command: self.command_convert(
                Command::MeasureRawSignalWithCompensation(temperature, humidity),
            ),
            args: Some((temperature_ticks, humidity_ticks)),
            read_len: ONE_WORD_LEN,
        }
    }
}

/// An asynchronous driver for the SGP41.
pub struct Sgp41<I2C, D> {
    i2c: I2C,
    delay: D,
}

impl<I2C, D> Sgp41<I2C, D> {
    /// The bus the driver talks on.
    pub closed spec fn bus(self) -> I2C {
        self.i2c
    }

    /// The delay provider.
    pub closed spec fn delay_provider(self) -> D {
        self.delay
    }

    /// Creates a driver for an SGP41 on `i2c`.
    pub fn new(i2c: I2C, delay: D) -> (r: Self)
        ensures
            r.bus() == i2c,
            r.delay_provider() == delay,
    {
        Self { i2c, delay }
    }

    /// The device address: always the default one.
    pub fn address(&self) -> (r: u8)
        ensures
            r == DEFAULT_I2C_ADDRESS,
    {
        DEFAULT_I2C_ADDRESS
    }

    /// The bus, for the exchanges.
    pub fn i2c(&mut self) -> (r: &mut I2C)
        ensures
            *r == old(self).bus(),
            final(self).bus() == *final(r),
            final(self).delay_provider() == old(self).delay_provider(),
    {
        &mut self.i2c
    }

    /// The delay provider, for the waits between command and answer.
    pub fn delay(&mut self) -> (r: &mut D)
        ensures
            *r == old(self).delay_provider(),
            final(self).delay_provider() == *final(r),
            final(self).bus() == old(self).bus(),
    {
        &mut self.delay
    }

    /// The bus form of `command` on an SGP41.
    pub fn command_convert(&self, command: Command) -> (r: CommandConvert)
        ensures
            converts_to(r, sgp41_code_and_millis(command)),
    {
        crate::Sgp41::command_convert(command)
    }

    /// The conditioning exchange: answered by one word, the VOC signal.
    pub fn execute_conditioning_transfer(&self) -> (t: Transfer)
        ensures
            transfer_is(
                t,
                sgp41_code_and_millis(Command::ExecuteConditioning),
                Some((DEFAULT_FIRST_ARG, DEFAULT_SECOND_ARG)),
                ONE_WORD_LEN,
            ),
    {
        Transfer {
            command: self.command_convert(Command::ExecuteConditioning),
            args: Some((DEFAULT_FIRST_ARG, DEFAULT_SECOND_ARG)),
            read_len: ONE_WORD_LEN,
        }
    }

    /// The measurement without humidity compensation: answered by two words, VOC and NOx.
    pub fn measure_raw_signals_transfer(&self) -> (t: Transfer)
        ensures
            transfer_is(
                t,
                sgp41_code_and_millis(Command::MeasureRawSignal),
                Some((DEFAULT_FIRST_ARG, DEFAULT_SECOND_ARG)),
                TWO_WORDS_LEN,
            ),
    {
        Transfer {
            command: self.command_convert(Command::MeasureRawSignal),
            args: Some((DEFAULT_FIRST_ARG, DEFAULT_SECOND_ARG)),
            read_len: TWO_WORDS_LEN,
        }
    }

    /// The measurement compensated for `temperature` and `humidity`, sent as the argument
    /// words `temperature_ticks` and `humidity_ticks`: answered by two words, VOC and NOx.
    pub fn measure_raw_signals_with_compensation_transfer(
        &self,
        temperature: Temperature,
        humidity: Humidity,
        temperature_ticks: u16,
        humidity_ticks: u16,
    ) -> (t: Transfer)
        ensures
            transfer_is(
                t,
                sgp41_code_and_millis(Command::MeasureRawSignalWithCompensation(temperature, humidity)),
                Some((temperature_ticks, humidity_ticks)),
                TWO_WORDS_LEN,
            ),
    {
        Transfer {
            command: self.command_convert(
                Command::MeasureRawSignalWithCompensation(temperature, humidity),
            ),
            args: Some((temperature_ticks, humidity_ticks)),
            read_len: TWO_WORDS_LEN,
        }
    }
}

} // verus!
