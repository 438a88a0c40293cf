//! The sensor's commands: which 16-bit command code each one is sent as, and how long the
//! sensor needs before its answer can be read.

use core::time::Duration;
use measurements::{Humidity, Temperature};
use vstd::prelude::*;

verus! {

/// Declares `measurements::Temperature`, carried opaque inside a compensated measurement command.
#[verifier::external_type_specification]
#[verifier::external_body]
pub struct ExTemperature(Temperature);

/// Declares `measurements::Humidity`, carried opaque inside a compensated measurement command.
#[verifier::external_type_specification]
#[verifier::external_body]
pub struct ExHumidity(Humidity);

/// What `core::time::Duration::from_millis` returns for a number of milliseconds.
pub uninterp spec fn duration_from_millis(ms: u64) -> Duration;

/// The duration of `ms` milliseconds.
///
/// Trusted: calls `core::time::Duration::from_millis`, whose result depends on `ms` alone;
/// the contract names that result and says nothing more of it.
#[verifier::external_body]
pub(crate) fn millis(ms: u64) -> (d: Duration)
    ensures
        d == duration_from_millis(ms),
{
    Duration::from_millis(ms)
}

/// A command as it goes on the bus: its 16-bit code and the time to wait before reading.
#[derive(Debug, Copy, Clone)]
pub struct CommandConvert {
    code: u16,
    duration: Duration,
}

impl CommandConvert {
    /// The command code.
    pub closed spec fn code(self) -> u16 {
        self.code
    }

    /// The time the sensor needs to execute the command.
    pub closed spec fn duration(self) -> Duration {
        self.duration
    }

    /// The command sent as `code`, answered after `duration`.
    pub fn new(code: u16, duration: Duration) -> (r: Self)
        ensures
            r.code() == code,
            r.duration() == duration,
    {
        Self { code, duration }
    }
}

impl vstd::std_specs::convert::FromSpecImpl<CommandConvert> for u16 {
    open spec fn obeys_from_spec() -> bool {
        true
    }

    open spec fn from_spec(v: CommandConvert) -> u16 {
        v.code()
    }
}

impl From<CommandConvert> for u16 {
    fn from(value: CommandConvert) -> (r: u16) {
        value.code
    }
}

impl vstd::std_specs::convert::FromSpecImpl<CommandConvert> for Duration {
    open spec fn obeys_from_spec() -> bool {
        true
    }

    open spec fn from_spec(v: CommandConvert) -> Duration {
        v.duration()
    }
}

impl From<CommandConvert> for Duration {
    fn from(value: CommandConvert) -> (r: Duration) {
        value.duration
    }
}

/// Converting back a command made by `new(code, duration)` gives `code` and `duration`.
pub proof fn lemma_command_convert_round_trip(c: CommandConvert, code: u16, duration: Duration)
    requires
        c.code() == code,
        c.duration() == duration,
    ensures
        <u16 as vstd::std_specs::convert::FromSpec<CommandConvert>>::from_spec(c) == code,
        <Duration as vstd::std_specs::convert::FromSpec<CommandConvert>>::from_spec(c) == duration,
{
}

/// Represents all possible commands for SGP40 and SGP41 sensors.
#[derive(Debug, Copy, Clone)]
pub enum Command {
    /// Execute conditioning cycle (SGP41 only).
    ExecuteConditioning,
    /// Measure raw signal with temperature and humidity compensation.
    MeasureRawSignalWithCompensation(Temperature, Humidity),
    /// Measure raw signal without compensation.
    MeasureRawSignal,
    /// Perform device self-test.
    ExecuteSelfTest,
    /// Disable the heater.
    HeaterDisable,
    /// Fetch the device serial number.
    SerialNumberFetch,
}

/// The commands that both variants understand alike.
pub open spec fn is_common_command(c: Command) -> bool {
    ||| c is ExecuteSelfTest
    ||| c is HeaterDisable
    ||| c is SerialNumberFetch
}

/// Code and execution time in milliseconds of the commands both variants understand alike.
pub open spec fn common_code_and_millis(c: Command) -> (u16, u64)
    recommends
        is_common_command(c),
{
    match c {
        Command::ExecuteSelfTest => (0x280e, 320),
        Command::HeaterDisable => (0x3615, 1),
        Command::SerialNumberFetch => (0x3682, 1),
        _ => arbitrary(),
    }
}

/// `c` goes on the bus with code `entry.0` and is answered after `entry.1` milliseconds.
pub open spec fn converts_to(c: CommandConvert, entry: (u16, u64)) -> bool {
    &&& c.code() == entry.0
    &&& c.duration() == duration_from_millis(entry.1)
}

/// The bus form of the commands that both variants understand alike.
pub fn default_command_convert(command: Command) -> (r: CommandConvert)
    requires
        is_common_command(command),
    ensures
        converts_to(r, common_code_and_millis(command)),
{
    match command {
        Command::ExecuteSelfTest => CommandConvert::new(0x280e, millis(320)),
        Command::HeaterDisable => CommandConvert::new(0x3615, millis(1)),
        Command::SerialNumberFetch => CommandConvert::new(0x3682, millis(1)),
        _ => unreached(),
    }
}

/// One exchange with the sensor: send `command` (followed by the two argument words in
/// `args`, if any), wait for it to execute, then read `read_len` bytes (none for a
/// write-only command).
#[derive(Debug, Copy, Clone)]
pub struct Transfer {
    /// The command to send.
    pub command: CommandConvert,
    /// The argument words sent after the command code.
    pub args: Option<(u16, u16)>,
    /// The length of the answer in bytes, checksum bytes included.
    pub read_len: usize,
}

/// The first argument word sent with a measurement that is not compensated (0x8000).
pub const DEFAULT_FIRST_ARG: u16 = 0x8000;

/// The second argument word sent with a measurement that is not compensated (0x6666).
pub const DEFAULT_SECOND_ARG: u16 = 0x6666;

/// `t` sends the command `entry` with `args` and reads `read_len` bytes.
pub open spec fn transfer_is(t: Transfer, entry: (u16, u64), args: Option<(u16, u16)>, read_len: usize) -> bool {
    &&& converts_to(t.command, entry)
    &&& t.args == args
    &&& t.read_len == read_len
}

/// Length of a one-word measurement answer.
pub const ONE_WORD_LEN: usize = 3;

/// Length of a two-word measurement answer.
pub const TWO_WORDS_LEN: usize = 6;

/// Length of the self-test answer: one checksummed word.
pub const SELF_TEST_LEN: usize = 3;

/// Length of the serial-number answer: three checksummed words.
pub const SERIAL_NUMBER_LEN: usize = 9;

/// The self test: the answer is one word of failure flags.
pub fn self_test_transfer() -> (t: Transfer)
    ensures
        transfer_is(t, common_code_and_millis(Command::ExecuteSelfTest), None, SELF_TEST_LEN),
{
    Transfer { command: default_command_convert(Command::ExecuteSelfTest), args: None, read_len: SELF_TEST_LEN }
}

/// Switching the heater off: a command with no answer.
pub fn heater_disable_transfer() -> (t: Transfer)
    ensures
        transfer_is(t, common_code_and_millis(Command::HeaterDisable), None, 0),
{
    Transfer { command: default_command_convert(Command::HeaterDisable), args: None, read_len: 0 }
}

/// Reading the serial number: the answer is three words.
pub fn serial_number_fetch_transfer() -> (t: Transfer)
    ensures
        transfer_is(t, common_code_and_millis(Command::SerialNumberFetch), None, SERIAL_NUMBER_LEN),
{
    Transfer {
        command: default_command_convert(Command::SerialNumberFetch),
        args: None,
        read_len: SERIAL_NUMBER_LEN,
    }
}

/// A measurement without compensation is sent with the argument words 0x8000 then 0x6666.
pub proof fn lemma_default_arguments()
    ensures
        DEFAULT_FIRST_ARG == 0x8000,
        DEFAULT_SECOND_ARG == 0x6666,
{
}

} // verus!
