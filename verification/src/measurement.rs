//! Decoding of the words the sensor answers with.
//!
//! A response is a run of big-endian 16-bit words, each followed by its CRC-8 byte:
//! `[w0_hi, w0_lo, crc0, w1_hi, w1_lo, crc1, ...]`. The checksums are validated by the
//! bus layer; the functions here read the data bytes and skip the checksum bytes.

use crate::command::{Transfer, ONE_WORD_LEN, SELF_TEST_LEN, SERIAL_NUMBER_LEN, TWO_WORDS_LEN};
use crate::words::{get_u16, word_at};
use vstd::prelude::*;

verus! {

/// A raw signal reading: the SGP40 reports a VOC signal only, the SGP41 a VOC and a NOx signal.
#[derive(Debug, Clone, Copy, PartialEq, Eq, Structural)]
pub enum RawMeasurement {
    /// A reading of the VOC pixel alone (one word).
    Partial {
        /// Raw VOC signal.
        voc: u16,
    },
    /// A reading of both pixels (two words).
    Full {
        /// Raw VOC signal.
        voc: u16,
        /// Raw NOx signal.
        nox: u16,
    },
}

/// `b` has the length of a measurement answer: one word or two words.
pub open spec fn is_measurement_answer(b: Seq<u8>) -> bool {
    b.len() == 3 || b.len() == 6
}

/// `b` is long enough to hold a self-test answer word.
pub open spec fn is_self_test_answer(b: Seq<u8>) -> bool {
    b.len() >= 2
}

/// `b` is long enough to hold the three serial-number words.
pub open spec fn is_serial_number_answer(b: Seq<u8>) -> bool {
    b.len() >= 8
}

/// The measurement that a response of one word (3 bytes) or two words (6 bytes) carries.
pub open spec fn raw_measurement_of(b: Seq<u8>) -> RawMeasurement {
    if b.len() == 3 {
        RawMeasurement::Partial { voc: word_at(b, 0) }
    } else {
        RawMeasurement::Full { voc: word_at(b, 0), nox: word_at(b, 3) }
    }
}

impl RawMeasurement {
    /// Decodes a measurement response: one word gives a `Partial` reading, two words a `Full`
    /// one. Responses of any other length are not measurements.
    pub fn from_bytes(bytes: &[u8]) -> (m: RawMeasurement)
        requires
            is_measurement_answer(bytes@),
        ensures
            m == raw_measurement_of(bytes@),
            bytes@.len() == 3 ==> (m matches RawMeasurement::Partial { voc } && voc as int
                == bytes@[0] as int * 256 + bytes@[1] as int),
            bytes@.len() == 6 ==> (m matches RawMeasurement::Full { voc, nox } && voc as int
                == bytes@[0] as int * 256 + bytes@[1] as int && nox as int == bytes@[3] as int * 256
                + bytes@[4] as int),
    {
        if bytes.len() == 3 {
            RawMeasurement::Partial { voc: get_u16(&bytes[0..2]) }
        } else {
            RawMeasurement::Full { voc: get_u16(&bytes[0..2]), nox: get_u16(&bytes[3..5]) }
        }
    }
}

/// The outcome of the built-in self test: a set of failure flags.
#[derive(Debug, Clone, Copy, PartialEq, Eq, Structural)]
pub struct TestResult {
    bits: u16,
}

impl View for TestResult {
    type V = u16;

    /// The raw flag word, unknown bits included.
    closed spec fn view(&self) -> u16 {
        self.bits
    }
}

/// Flag bit set when one or more tests of the VOC pixel failed.
pub const VOC_FAILURE_BIT: u16 = 1;

/// Flag bit set when one or more tests of the NOx pixel failed.
pub const NOX_FAILURE_BIT: u16 = 2;

/// Two flag sets with the same flag word are the same value.
pub proof fn lemma_test_result_view_eq(a: TestResult, b: TestResult)
    requires
        a@ == b@,
    ensures
        a == b,
{
}

impl TestResult {
    /// The flag set with no flag.
    pub fn empty() -> (r: TestResult)
        ensures
            r@ == 0,
    {
        TestResult { bits: 0 }
    }

    /// The flag set holding only the VOC failure flag.
    pub fn voc_failure_flag() -> (r: TestResult)
        ensures
            r@ == VOC_FAILURE_BIT,
    {
        TestResult { bits: VOC_FAILURE_BIT }
    }

    /// The flag set holding only the NOx failure flag.
    pub fn nox_failure_flag() -> (r: TestResult)
        ensures
            r@ == NOX_FAILURE_BIT,
    {
        TestResult { bits: NOX_FAILURE_BIT }
    }

    /// The flag set holding exactly `bits`, unknown bits included.
    pub fn from_bits_retain(bits: u16) -> (r: TestResult)
        ensures
            r@ == bits,
    {
        TestResult { bits }
    }

    /// The raw flag word.
    pub fn bits(&self) -> (r: u16)
        ensures
            r == self@,
    {
        self.bits
    }

    /// Whether the two flag sets have a flag in common.
    pub fn intersects(&self, other: TestResult) -> (r: bool)
        ensures
            r == (self@ & other@ != 0),
    {
        self.bits & other.bits != 0
    }

    /// Whether the VOC pixel failed its self test.
    pub fn voc_failure(&self) -> (r: bool)
        ensures
            r == (self@ & VOC_FAILURE_BIT != 0),
            r == (self@ % 2 == 1),
    {
        proof {
            let w = self@;
            assert((w & 1u16 != 0) == (w % 2 == 1)) by (bit_vector);
        }
        self.intersects(TestResult::voc_failure_flag())
    }

    /// Whether the NOx pixel failed its self test.
    pub fn nox_failure(&self) -> (r: bool)
        ensures
            r == (self@ & NOX_FAILURE_BIT != 0),
            r == ((self@ / 2) % 2 == 1),
    {
        proof {
            let w = self@;
            assert((w & 2u16 != 0) == ((w / 2) % 2 == 1)) by (bit_vector);
        }
        self.intersects(TestResult::nox_failure_flag())
    }

    /// Decodes a self-test response: the flags are the first word, its checksum byte and
    /// anything after it are ignored.
    pub fn from_response(bytes: &[u8]) -> (r: TestResult)
        requires
            is_self_test_answer(bytes@),
        ensures
            r@ == word_at(bytes@, 0),
    {
        TestResult::from_bits_retain(get_u16(&bytes[0..2]))
    }
}

/// The serial number carried by a serial-number response: the 48-bit big-endian number whose
/// bytes are the data bytes 0, 1, 3, 4, 6, 7 of the response (bytes 2 and 5 are checksums).
pub open spec fn serial_number_of(b: Seq<u8>) -> u64 {
    (b[0] as int * 0x100_0000_0000 + b[1] as int * 0x1_0000_0000 + b[3] as int * 0x100_0000
        + b[4] as int * 0x1_0000 + b[6] as int * 0x100 + b[7] as int) as u64
}

/// Decodes a serial-number response of three checksummed words into the serial number.
pub fn serial_number_from_response(bytes: &[u8]) -> (serial: u64)
    requires
        is_serial_number_answer(bytes@),
    ensures
        serial == serial_number_of(bytes@),
        serial < 0x1_0000_0000_0000,
{
    (bytes[0] as u64) * 0x100_0000_0000 + (bytes[1] as u64) * 0x1_0000_0000 + (bytes[3] as u64)
        * 0x100_0000 + (bytes[4] as u64) * 0x1_0000 + (bytes[6] as u64) * 0x100 + (bytes[7] as u64)
}

/// A word of an answer is its two bytes read big-endian: the full 16 bits, high byte first.
pub proof fn lemma_word_is_big_endian(b: Seq<u8>, i: int)
    requires
        0 <= i,
        i + 1 < b.len(),
    ensures
        word_at(b, i) as int == b[i] as int * 256 + b[i + 1] as int,
        word_at(b, i) as int / 256 == b[i] as int,
        word_at(b, i) as int % 256 == b[i + 1] as int,
{
}

/// A one-word answer is a VOC-only reading of the whole first word; in a two-word answer the
/// first word is always the VOC signal and the second always the NOx signal, whichever is
/// larger.
pub proof fn lemma_measurement_words(b: Seq<u8>)
    ensures
        b.len() == 3 ==> (raw_measurement_of(b) matches RawMeasurement::Partial { voc } && voc as int
            == b[0] as int * 256 + b[1] as int),
        b.len() == 6 ==> (raw_measurement_of(b) matches RawMeasurement::Full { voc, nox } && voc as int
            == b[0] as int * 256 + b[1] as int && nox as int == b[3] as int * 256 + b[4] as int),
{
}

/// Every answer is a whole number of checksummed words of three bytes: one for a one-word
/// measurement and the self test, two for a two-word measurement, three for the serial number.
pub proof fn lemma_answer_sizes()
    ensures
        ONE_WORD_LEN == 3 * 1,
        TWO_WORDS_LEN == 3 * 2,
        SELF_TEST_LEN == 3 * 1,
        SERIAL_NUMBER_LEN == 3 * 3,
{
}

/// The length of a measurement answer decides the reading: one word (what the SGP40 and the
/// conditioning command answer) is a VOC-only reading, two words (what an SGP41 measurement
/// answers) are a VOC and NOx reading.
pub proof fn lemma_answer_length_decides_reading(b: Seq<u8>)
    ensures
        b.len() == ONE_WORD_LEN ==> raw_measurement_of(b) is Partial,
        b.len() == TWO_WORDS_LEN ==> raw_measurement_of(b) is Full,
{
}

/// Two answers that differ only in their checksum bytes (every third byte) decode alike.
pub proof fn lemma_checksum_bytes_do_not_matter(a: Seq<u8>, b: Seq<u8>)
    requires
        a.len() == b.len(),
        forall|i: int| 0 <= i < a.len() && i % 3 != 2 ==> a[i] == b[i],
    ensures
        a.len() == ONE_WORD_LEN || a.len() == TWO_WORDS_LEN ==> raw_measurement_of(a)
            == raw_measurement_of(b),
        a.len() >= 2 ==> word_at(a, 0) == word_at(b, 0),
        a.len() >= 8 ==> serial_number_of(a) == serial_number_of(b),
{
    if a.len() >= 2 {
        assert(a[0] == b[0] && a[1] == b[1]);
    }
    if a.len() >= 5 {
        assert(a[3] == b[3] && a[4] == b[4]);
    }
    if a.len() >= 8 {
        assert(a[6] == b[6] && a[7] == b[7]);
    }
}

/// The serial number is the three answer words, most significant first.
pub proof fn lemma_serial_number_is_three_words(b: Seq<u8>)
    requires
        b.len() >= 8,
    ensures
        serial_number_of(b) == word_at(b, 0) as int * 0x1_0000_0000 + word_at(b, 3) as int * 0x1_0000
            + word_at(b, 6) as int,
{
}

/// An answer of the length that an exchange reads is one its decoder accepts: the one- and
/// two-word lengths of the measurement exchanges suit `RawMeasurement::from_bytes`, the
/// self-test length suits `TestResult::from_response`, and the serial-number length suits
/// `serial_number_from_response`.
pub proof fn lemma_requested_lengths_are_decodable(t: Transfer, b: Seq<u8>)
    requires
        b.len() == t.read_len,
    ensures
        t.read_len == ONE_WORD_LEN || t.read_len == TWO_WORDS_LEN ==> is_measurement_answer(b),
        t.read_len == SELF_TEST_LEN ==> is_self_test_answer(b),
        t.read_len == SERIAL_NUMBER_LEN ==> is_serial_number_answer(b),
{
}

} // verus!
