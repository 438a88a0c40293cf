use core::time::Duration;

use embedded_hal_mock::eh1::delay::NoopDelay;
use embedded_hal_mock::eh1::i2c::Mock;
use measurements::{Humidity, Temperature};
use sensirion_sgp4x::blocking::Sgp4x;
use sensirion_sgp4x::command::{
    heater_disable_transfer, self_test_transfer, serial_number_fetch_transfer, Command,
};
use sensirion_sgp4x::measurement::serial_number_from_response;
use sensirion_sgp4x::{RawMeasurement, Sgp40, Sgp41, TestResult, DEFAULT_I2C_ADDRESS};

/// Appends `word` and its checksum, as the sensor answers.
fn put_word(buf: &mut Vec<u8>, word: u16) {
    buf.extend_from_slice(&word.to_be_bytes());
    buf.push(sensirion_i2c::crc8::calculate(&word.to_be_bytes()));
}

fn temperature_ticks(temperature: Temperature) -> u16 {
    (((temperature.as_celsius() + 45.0) * u16::MAX as f64) / 175.0) as u16
}

fn humidity_ticks(humidity: Humidity) -> u16 {
    ((humidity.as_percent() * u16::MAX as f64) / 100.0) as u16
}

#[test]
fn test_new() {
    let mut i2c = Mock::new(&[]);
    {
        let device = Sgp4x::<_, u8, _, Sgp40>::new_with_variant::<Sgp40>(&mut i2c, NoopDelay::default());
        println!("Address: {}", device.address());
        assert_eq!(device.address(), DEFAULT_I2C_ADDRESS);
    }
    i2c.done();
}

#[test]
fn test_heater_disable() {
    let transfer = heater_disable_transfer();
    assert_eq!(
        u16::from(transfer.command).to_be_bytes().to_vec(),
        u16::from(Sgp40::command_convert(Command::HeaterDisable)).to_be_bytes().to_vec()
    );
    assert_eq!(transfer.args, None);
    assert_eq!(transfer.read_len, 0);
}

#[test]
fn test_serial_number_fetch() {
    let raw_serial_number = 128;
    let mut serial_number = Vec::with_capacity(9);
    for x in 0..3 {
        let put_number = match x {
            2 => raw_serial_number,
            _ => 0,
        } as u16;
        put_word(&mut serial_number, put_number);
    }

    let transfer = serial_number_fetch_transfer();
    assert_eq!(
        u16::from(transfer.command),
        u16::from(Sgp40::command_convert(Command::SerialNumberFetch))
    );
    assert_eq!(transfer.read_len, serial_number.len());
    assert_eq!(serial_number_from_response(&serial_number), raw_serial_number);
}

#[test]
fn test_execute_self_test() {
    let mut test_results = Vec::with_capacity(3);
    put_word(&mut test_results, u16::MAX);

    let transfer = self_test_transfer();
    assert_eq!(
        u16::from(transfer.command),
        u16::from(Sgp40::command_convert(Command::ExecuteSelfTest))
    );
    assert_eq!(transfer.read_len, test_results.len());
    assert_eq!(
        TestResult::from_response(&test_results),
        TestResult::from_bits_retain(u16::MAX)
    );
}

#[test]
fn test_sgp40_measure_raw_signals() {
    let mut raw_signals = Vec::with_capacity(3);
    put_word(&mut raw_signals, 44);

    let mut i2c = Mock::new(&[]);
    {
        let device = Sgp4x::<_, u8, _, Sgp40>::new_with_variant::<Sgp40>(&mut i2c, NoopDelay::default());
        let transfer = device.measure_raw_signals_transfer();
        assert_eq!(
            u16::from(transfer.command),
            u16::from(Sgp40::command_convert(Command::MeasureRawSignal))
        );
        assert_eq!(transfer.args, None);
        assert_eq!(transfer.read_len, raw_signals.len());
        assert_eq!(RawMeasurement::from_bytes(&raw_signals), RawMeasurement::Partial { voc: 44 });
    }
    i2c.done();
}

#[test]
fn test_sgp41_measure_raw_signals() {
    let mut raw_signals = Vec::with_capacity(6);
    put_word(&mut raw_signals, 44);
    put_word(&mut raw_signals, 66);

    let mut i2c = Mock::new(&[]);
    {
        let device = Sgp4x::<_, u8, _, Sgp41>::new_with_variant::<Sgp41>(&mut i2c, NoopDelay::default());
        let transfer = device.measure_raw_signals_transfer();
        assert_eq!(
            u16::from(transfer.command),
            u16::from(Sgp41::command_convert(Command::MeasureRawSignal))
        );
        assert_eq!(transfer.args, None);
        assert_eq!(transfer.read_len, raw_signals.len());
        assert_eq!(
            RawMeasurement::from_bytes(&raw_signals),
            RawMeasurement::Full { voc: 44, nox: 66 }
        );
    }
    i2c.done();
}

#[test]
fn test_sgp40_measure_raw_signals_with_compensation() {
    let temperature = Temperature::from_celsius(50.0);
    let temperature_bytes = temperature_ticks(temperature);
    let humidity = Humidity::from_percent(50.0);
    let humidity_bytes = humidity_ticks(humidity);

    let mut raw_signals = Vec::with_capacity(3);
    put_word(&mut raw_signals, 44);

    let mut i2c = Mock::new(&[]);
    {
        let device = Sgp4x::<_, u8, _, Sgp40>::new_with_variant::<Sgp40>(&mut i2c, NoopDelay::default());
        let transfer = device.measure_raw_signals_with_compensation_transfer(
            temperature,
            humidity,
            temperature_bytes,
            humidity_bytes,
        );
        assert_eq!(
            u16::from(transfer.command),
            u16::from(Sgp40::command_convert(Command::MeasureRawSignalWithCompensation(
                temperature,
                humidity
            )))
        );
        assert_eq!(transfer.args, Some((temperature_bytes, humidity_bytes)));
        assert_eq!(transfer.read_len, raw_signals.len());
        assert_eq!(RawMeasurement::from_bytes(&raw_signals), RawMeasurement::Partial { voc: 44 });
    }
    i2c.done();
}

#[test]
fn test_sgp41_measure_raw_signals_with_compensation() {
    let temperature = Temperature::from_celsius(50.0);
    let temperature_bytes = temperature_ticks(temperature);
    let humidity = Humidity::from_percent(50.0);
    let humidity_bytes = humidity_ticks(humidity);

    let mut raw_signals = Vec::with_capacity(6);
    put_word(&mut raw_signals, 44);
    put_word(&mut raw_signals, 66);

    let mut i2c = Mock::new(&[]);
    {
        let device = Sgp4x::<_, u8, _, Sgp41>::new_with_variant::<Sgp41>(&mut i2c, NoopDelay::default());
        let transfer = device.measure_raw_signals_with_compensation_transfer(
            temperature,
            humidity,
            temperature_bytes,
            humidity_bytes,
        );
        assert_eq!(
            u16::from(transfer.command),
            u16::from(Sgp41::command_convert(Command::MeasureRawSignalWithCompensation(
                temperature,
                humidity
            )))
        );
        assert_eq!(transfer.args, Some((temperature_bytes, humidity_bytes)));
        assert_eq!(transfer.read_len, raw_signals.len());
        assert_eq!(
            RawMeasurement::from_bytes(&raw_signals),
            RawMeasurement::Full { voc: 44, nox: 66 }
        );
    }
    i2c.done();
}

#[test]
fn test_sgp41_execute_conditioning() {
    let mut raw_signals = Vec::with_capacity(3);
    put_word(&mut raw_signals, 44);

    let mut i2c = Mock::new(&[]);
    {
        let device = Sgp4x::<_, u8, _, Sgp41>::new_with_variant::<Sgp41>(&mut i2c, NoopDelay::default());
        let transfer = device.execute_conditioning_transfer();
        assert_eq!(
            u16::from(transfer.command),
            u16::from(Sgp41::command_convert(Command::ExecuteConditioning))
        );
        assert_eq!(transfer.read_len, raw_signals.len());
        assert_eq!(RawMeasurement::from_bytes(&raw_signals), RawMeasurement::Partial { voc: 44 });
    }
    i2c.done();
}

#[test]
fn test_into_variant() {
    let mut raw_signals = Vec::with_capacity(6);
    put_word(&mut raw_signals, 44);
    put_word(&mut raw_signals, 66);

    let mut i2c = Mock::new(&[]);
    {
        let device = Sgp4x::<_, u8, _, Sgp41>::new_with_variant::<Sgp41>(&mut i2c, NoopDelay::default());
        let transfer = device.measure_raw_signals_transfer();
        assert_eq!(transfer.read_len, raw_signals.len());
        assert_eq!(
            RawMeasurement::from_bytes(&raw_signals[..transfer.read_len]),
            RawMeasurement::Full { voc: 44, nox: 66 }
        );

        // convert into Sgp40
        let new_device = device.into_variant::<Sgp40>();
        assert_eq!(new_device.address(), DEFAULT_I2C_ADDRESS);
        let transfer = new_device.measure_raw_signals_transfer();
        assert_eq!(
            u16::from(transfer.command),
            u16::from(Sgp40::command_convert(Command::MeasureRawSignal))
        );
        assert_eq!(
            RawMeasurement::from_bytes(&raw_signals[0..transfer.read_len]),
            RawMeasurement::Partial { voc: 44 }
        );
    }
    i2c.done();
}

#[test]
fn new_defaults_to_the_default_address() {
    let mut i2c = Mock::new(&[]);
    {
        let mut device = Sgp4x::<_, u8, _, Sgp41>::new(&mut i2c, NoopDelay::new());
        assert_eq!(device.address(), DEFAULT_I2C_ADDRESS);
        let _ = device.delay();
        let _ = device.i2c();
        assert_eq!(device.address(), 0x59);
    }
    i2c.done();
}

#[test]
fn measurement_durations() {
    assert_eq!(
        Duration::from(Sgp40::command_convert(Command::MeasureRawSignal)),
        Duration::from_millis(30)
    );
    assert_eq!(
        Duration::from(Sgp41::command_convert(Command::MeasureRawSignal)),
        Duration::from_millis(50)
    );
    assert_eq!(
        Duration::from(Sgp41::command_convert(Command::ExecuteConditioning)),
        Duration::from_millis(50)
    );
    assert_eq!(Duration::from(self_test_transfer().command), Duration::from_millis(320));
    assert_eq!(Duration::from(heater_disable_transfer().command), Duration::from_millis(1));
}

#[test]
fn blocking_command_codes() {
    let mut a = Mock::new(&[]);
    let mut b = Mock::new(&[]);
    {
        let sgp40 = Sgp4x::<_, u8, _, Sgp40>::new_with_variant::<Sgp40>(&mut a, NoopDelay::default());
        let sgp41 = Sgp4x::<_, u8, _, Sgp41>::new_with_variant::<Sgp41>(&mut b, NoopDelay::default());
        let t = Temperature::from_celsius(25.0);
        let h = Humidity::from_percent(50.0);
        assert_eq!(u16::from(sgp40.measure_raw_signals_transfer().command), 0x260F);
        assert_eq!(
            u16::from(sgp40.measure_raw_signals_with_compensation_transfer(t, h, 1, 2).command),
            0x260F
        );
        assert_eq!(u16::from(sgp41.measure_raw_signals_transfer().command), 0x2619);
        assert_eq!(
            u16::from(sgp41.measure_raw_signals_with_compensation_transfer(t, h, 1, 2).command),
            0x2619
        );
        assert_eq!(u16::from(sgp41.execute_conditioning_transfer().command), 0x2612);
        assert_eq!(u16::from(self_test_transfer().command), 0x280E);
        assert_eq!(u16::from(heater_disable_transfer().command), 0x3615);
        assert_eq!(u16::from(serial_number_fetch_transfer().command), 0x3682);
        assert_eq!(u16::from(Sgp40::command_convert(Command::ExecuteSelfTest)), 0x280E);
        assert_eq!(u16::from(Sgp41::command_convert(Command::HeaterDisable)), 0x3615);
        assert_eq!(u16::from(Sgp41::command_convert(Command::SerialNumberFetch)), 0x3682);
    }
    a.done();
    b.done();
}
