//! The blocking driver: it owns the bus and the delay provider and knows its variant by type.
//! The exchanges it performs are described by the `*_transfer` methods.

use core::marker::PhantomData;
use measurements::{Humidity, Temperature};
use vstd::prelude::*;

use crate::command::{transfer_is, Command, Transfer, ONE_WORD_LEN, TWO_WORDS_LEN};
use crate::{sgp40_code_and_millis, sgp41_code_and_millis, DeviceVariant, Sgp40, Sgp41, DEFAULT_I2C_ADDRESS};

verus! {

/// A blocking driver for the SGP4x device.
#[derive(Debug, Default)]
pub struct Sgp4x<I2C, A, D, V> {
    i2c: I2C,
    address: A,
    delay: D,
    variant: PhantomData<V>,
}

impl<I2C, A, D, V> Sgp4x<I2C, A, D, V> {
    /// The bus the driver talks on.
    pub closed spec fn bus(self) -> I2C {
        self.i2c
    }

    /// The device address.
    pub closed spec fn device_address(self) -> A {
        self.address
    }

    /// The delay provider.
    pub closed spec fn delay_provider(self) -> D {
        self.delay
    }

    /// Transforms the driver into a different variant, keeping bus, address and delay.
    pub fn into_variant<T: DeviceVariant>(self) -> (r: Sgp4x<I2C, A, D, T>)
        ensures
            r.bus() == self.bus(),
            r.device_address() == self.device_address(),
            r.delay_provider() == self.delay_provider(),
    {
        Sgp4x::<I2C, A, D, T> {
            i2c: self.i2c,
            address: self.address,
            delay: self.delay,
            variant: PhantomData,
        }
    }
}

impl<I2C, D, V: DeviceVariant> Sgp4x<I2C, u8, D, V> {
    /// Creates a new instance of the SGP4x device driver at the default address.
    pub fn new(i2c: I2C, delay: D) -> (r: Self)
        ensures
            r.bus() == i2c,
            r.delay_provider() == delay,
            r.device_address() == DEFAULT_I2C_ADDRESS,
    {
        Self::new_with_variant::<Sgp41>(i2c, delay)
    }

    /// Creates a new instance of the SGP4x device driver at the default address; the variant
    /// is the one of `Self`.
    pub fn new_with_variant<T: DeviceVariant>(i2c: I2C, delay: D) -> (r: Self)
        ensures
            r.bus() == i2c,
            r.delay_provider() == delay,
            r.device_address() == DEFAULT_I2C_ADDRESS,
    {
        Self { address: DEFAULT_I2C_ADDRESS, i2c, delay, variant: PhantomData }
    }

    /// The device address.
    pub fn address(&self) -> (r: u8)
        ensures
            r == self.device_address(),
    {
        self.address
    }

    /// The bus, for the exchanges.
    pub fn i2c(&mut self) -> (r: &mut I2C)
        ensures
            *r == old(self).bus(),
            final(self).bus() == *final(r),
            final(self).device_address() == old(self).device_address(),
            final(self).delay_provider() == old(self).delay_provider(),
    {
        &mut self.i2c
    }

    /// The delay provider, for the waits between command and answer.
    pub fn delay(&mut self) -> (r: &mut D)
        ensures
            *r == old(self).delay_provider(),
            final(self).delay_provider() == *final(r),
            final(self).device_address() == old(self).device_address(),
            final(self).bus() == old(self).bus(),
    {
        &mut self.delay
    }
}

impl<I2C, D> Sgp4x<I2C, u8, D, Sgp41> {
    /// The conditioning exchange: answered by one word, the VOC signal.
    pub fn execute_conditioning_transfer(&self) -> (t: Transfer)
        ensures
            transfer_is(t, sgp41_code_and_millis(Command::ExecuteConditioning), None, ONE_WORD_LEN),
    {
        Transfer {
            command: Sgp41::command_convert(Command::ExecuteConditioning),
            args: None,
            read_len: ONE_WORD_LEN,
        }
    }

    /// The measurement without humidity compensation: answered by two words, VOC and NOx.
    pub fn measure_raw_signals_transfer(&self) -> (t: Transfer)
        ensures
            transfer_is(t, sgp41_code_and_millis(Command::MeasureRawSignal), None, TWO_WORDS_LEN),
    {
        Transfer {
            command: Sgp41::command_convert(Command::MeasureRawSignal),
            args: None,
            read_len: TWO_WORDS_LEN,
        }
    }

    /// The measurement compensated for `temperature` and `humidity`, sent as the argument
    /// words `temperature_ticks` and `humidity_ticks`: answered by two words, VOC and NOx.
    pub fn measure_raw_signals_with_compensation_transfer(
        &self,
        temperature: Temperature,
        humidity: Humidity,
        temperature_ticks: u16,
        humidity_ticks: u16,
    ) -> (t: Transfer)
        ensures
            transfer_is(
                t,
                sgp41_code_and_millis(Command::MeasureRawSignalWithCompensation(temperature, humidity)),
                Some((temperature_ticks, humidity_ticks)),
                TWO_WORDS_LEN,
            ),
    {
        Transfer {
            command: Sgp41::command_convert(
                Command::MeasureRawSignalWithCompensation(temperature, humidity),
            ),
            args: Some((temperature_ticks, humidity_ticks)),
            read_len: TWO_WORDS_LEN,
        }
    }
}

impl<I2C, D> Sgp4x<I2C, u8, D, Sgp40> {
    /// The measurement without humidity compensation: answered by one word, the VOC signal.
    pub fn measure_raw_signals_transfer(&self) -> (t: Transfer)
        ensures
            transfer_is(t, sgp40_code_and_millis(Command::MeasureRawSignal), None, ONE_WORD_LEN),
    {
        Transfer {
            command: Sgp40::command_convert(Command::MeasureRawSignal),
            args: None,
            read_len: ONE_WORD_LEN,
        }
    }

    /// The measurement compensated for `temperature` and `humidity`, sent as the argument
    /// words `temperature_ticks` and `humidity_ticks`: answered by one word, the VOC signal.
    pub fn measure_raw_signals_with_compensation_transfer(
        &self,
        temperature: Temperature,
        humidity: Humidity,
        temperature_ticks: u16,
        humidity_ticks: u16,
    ) -> (t: Transfer)
        ensures
            transfer_is(
                t,
                sgp40_code_and_millis(Command::MeasureRawSignalWithCompensation(temperature, humidity)),
                Some((temperature_ticks, humidity_ticks)),
                ONE_WORD_LEN,
            ),
    {
        Transfer {
            command: Sgp40::command_convert(
                Command::MeasureRawSignalWithCompensation(temperature, humidity),
            ),
            args: Some((temperature_ticks, humidity_ticks)),
            read_len: ONE_WORD_LEN,
        }
    }
}

} // verus!
