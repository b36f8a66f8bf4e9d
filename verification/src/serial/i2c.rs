//! The inter-integrated-circuit (I2C) serial interface: its error type, the
//! mapping of platform status codes onto it, and the reader/writer
//! capabilities sensor drivers implement on top of the bus.

use std::collections::HashMap;

use vstd::prelude::*;
use vstd::string::StringSliceAdditionalSpecFns;

verus! {

/// The platform status code of an invalid argument.
pub const ESP_ERR_INVALID_ARG: i32 = 0x102;

/// The platform status code of an allocation that ran out of memory.
pub const ESP_ERR_NO_MEM: i32 = 0x101;

/// The platform status code of an operation that timed out.
pub const ESP_ERR_TIMEOUT: i32 = 0x107;

/// Errors raised while driving the I2C bus.
#[derive(Debug, Clone, Copy, PartialEq, Eq, Structural)]
pub enum I2CError {
    Temp,
    InvalidPin,
    InvalidPeripheral,
    BufferTooSmall,
    InvalidArg,
    DriverError,
    NoMoreHeapMemory,
    TimeoutError,
    ErrorInReadValue,
}

/// The error an I2C master transfer's status code stands for.
pub open spec fn master_error_spec(code: i32) -> I2CError {
    if code == ESP_ERR_INVALID_ARG {
        I2CError::InvalidArg
    } else if code == ESP_ERR_NO_MEM {
        I2CError::BufferTooSmall
    } else {
        I2CError::NoMoreHeapMemory
    }
}

/// Maps the status code of a failed I2C master transfer to its error.
pub fn map_master_transfer_error(code: i32) -> (error: I2CError)
    ensures
        error == master_error_spec(code),
{
    if code == ESP_ERR_INVALID_ARG {
        I2CError::InvalidArg
    } else if code == ESP_ERR_NO_MEM {
        I2CError::BufferTooSmall
    } else {
        I2CError::NoMoreHeapMemory
    }
}

/// The error an I2C slave transfer's status code stands for.
pub open spec fn slave_error_spec(code: i32) -> I2CError {
    if code == ESP_ERR_TIMEOUT {
        I2CError::TimeoutError
    } else {
        I2CError::InvalidArg
    }
}

/// Maps the status code of a failed I2C slave transfer to its error.
pub fn map_slave_transfer_error(code: i32) -> (error: I2CError)
    ensures
        error == slave_error_spec(code),
{
    if code == ESP_ERR_TIMEOUT {
        I2CError::TimeoutError
    } else {
        I2CError::InvalidArg
    }
}

/// The error a failed I2C driver initialization's status code stands for.
pub open spec fn driver_init_error_spec(code: i32) -> I2CError {
    if code == ESP_ERR_INVALID_ARG {
        I2CError::InvalidArg
    } else {
        I2CError::DriverError
    }
}

/// Maps the status code of a failed I2C driver initialization to its error.
pub fn map_driver_init_error(code: i32) -> (error: I2CError)
    ensures
        error == driver_init_error_spec(code),
{
    if code == ESP_ERR_INVALID_ARG {
        I2CError::InvalidArg
    } else {
        I2CError::DriverError
    }
}

/// A device that reads from the bus and parses what it read into keyed
/// values — implemented by each sensor driver on top of the bus.
pub trait READER {
    /// Reads from the bus and parses the reading into keyed values.
    fn read_and_parse(&mut self) -> HashMap<String, String>;
}

/// A device that parses a command and writes it onto the bus.
pub trait WRITER {
    /// Parses the bytes and writes them to the device at `addr`.
    fn parse_and_write(&mut self, addr: u8, bytes_to_write: &[u8]) -> Result<(), I2CError>;
}

/// Whether a byte is an ASCII decimal digit.
pub open spec fn is_digit(b: u8) -> bool {
    0x30 <= b <= 0x39
}

/// Whether every byte of `s` is an ASCII decimal digit.
pub open spec fn all_digits(s: Seq<u8>) -> bool {
    forall|i: int| 0 <= i < s.len() ==> is_digit(#[trigger] s[i])
}

/// The value of a sequence of decimal digits, most significant first.
pub open spec fn digits_value(s: Seq<u8>) -> int
    decreases s.len(),
{
    if s.len() == 0 {
        0
    } else {
        digits_value(s.drop_last()) * 10 + (s.last() - 0x30)
    }
}

/// The digit part of a decimal literal: everything after an optional
/// leading sign.
pub open spec fn decimal_body(s: Seq<u8>) -> Seq<u8> {
    if s.len() > 0 && (s[0] == 0x2B || s[0] == 0x2D) {
        s.drop_first()
    } else {
        s
    }
}

/// Whether a decimal literal carries a leading minus sign.
pub open spec fn decimal_negative(s: Seq<u8>) -> bool {
    s.len() > 0 && s[0] == 0x2D
}

/// Whether `s` is a decimal literal whose value fits a 32-bit signed
/// integer: an optional sign, at least one digit, and a value in range.
pub open spec fn is_i32_decimal(s: Seq<u8>) -> bool {
    &&& decimal_body(s).len() > 0
    &&& all_digits(decimal_body(s))
    &&& (if decimal_negative(s) {
        digits_value(decimal_body(s)) <= 0x8000_0000
    } else {
        digits_value(decimal_body(s)) <= 0x7FFF_FFFF
    })
}

/// The value of a decimal literal.
pub open spec fn i32_decimal_value(s: Seq<u8>) -> int {
    if decimal_negative(s) {
        -digits_value(decimal_body(s))
    } else {
        digits_value(decimal_body(s))
    }
}

/// The value of a digit sequence is never negative.
proof fn lemma_digits_value_nonneg(s: Seq<u8>)
    requires
        all_digits(s),
    ensures
        digits_value(s) >= 0,
    decreases s.len(),
{
    if s.len() > 0 {
        assert(all_digits(s.drop_last()));
        lemma_digits_value_nonneg(s.drop_last());
    }
}

/// Reading one more digit never shrinks the value: every prefix of a digit
/// sequence is worth at most the whole.
proof fn lemma_digits_value_prefix(s: Seq<u8>, j: int)
    requires
        all_digits(s),
        0 <= j <= s.len(),
    ensures
        digits_value(s.take(j)) <= digits_value(s),
    decreases s.len() - j,
{
    if j < s.len() {
        assert(all_digits(s.take(j)));
        lemma_digits_value_nonneg(s.take(j));
        assert(s.take(j + 1).drop_last() =~= s.take(j));
        assert(s.take(j + 1).last() == s[j]);
        assert(digits_value(s.take(j + 1)) == digits_value(s.take(j)) * 10 + (s[j] - 0x30));
        lemma_digits_value_prefix(s, j + 1);
    } else {
        assert(s.take(j) =~= s);
    }
}

/// Parses a decimal 32-bit signed integer from its bytes, with an optional
/// leading `+` or `-` sign. Fails exactly on input that is not such a
/// literal: an empty digit part, a non-digit byte, or a value out of
/// range.
pub fn parse_i32_bytes(bytes: &[u8]) -> (result: Result<i32, I2CError>)
    ensures
        match result {
            Ok(n) => is_i32_decimal(bytes@) && n as int == i32_decimal_value(bytes@),
            Err(e) => !is_i32_decimal(bytes@) && e == I2CError::ErrorInReadValue,
        },
{
    let ghost whole = bytes@;
    let len = bytes.len();
    let mut start: usize = 0;
    let mut negative = false;
    if len > 0 && (bytes[0] == 0x2B || bytes[0] == 0x2D) {
        start = 1;
        negative = bytes[0] == 0x2D;
    }
    let ghost body = decimal_body(whole);
    proof {
        assert(body =~= whole.skip(start as int));
        assert(negative == decimal_negative(whole));
    }
    if start >= len {
        return Err(I2CError::ErrorInReadValue);
    }
    let limit: i64 = if negative {
        0x8000_0000
    } else {
        0x7FFF_FFFF
    };
    let mut acc: i64 = 0;
    let mut j: usize = start;
    while j < len
        invariant
            whole == bytes@,
            start <= j <= len,
            len == whole.len(),
            bytes@ == whole,
            body == decimal_body(whole),
            body == whole.skip(start as int),
            negative == decimal_negative(whole),
            limit == (if negative {
                0x8000_0000i64
            } else {
                0x7FFF_FFFFi64
            }),
            all_digits(body.take(j - start)),
            acc == digits_value(body.take(j - start)),
            0 <= acc <= limit,
        decreases len - j,
    {
        let b = bytes[j];
        if b < 0x30 || b > 0x39 {
            proof {
                assert(body[j - start] == whole[j as int]);
                assert(!is_digit(body[j - start]));
                assert(!all_digits(body));
            }
            return Err(I2CError::ErrorInReadValue);
        }
        let d = (b - 0x30) as i64;
        let next = acc * 10 + d;
        proof {
            assert(body.take(j - start + 1).drop_last() =~= body.take(j - start));
            assert(body.take(j - start + 1).last() == body[j - start]);
            assert(body[j - start] == whole[j as int]);
            assert(next == digits_value(body.take(j - start + 1)));
        }
        if next > limit {
            proof {
                assert(all_digits(body.take(j - start + 1)));
                if all_digits(body) {
                    lemma_digits_value_prefix(body, j - start + 1);
                    assert(digits_value(body) >= next > limit);
                }
            }
            return Err(I2CError::ErrorInReadValue);
        }
        acc = next;
        j = j + 1;
    }
    proof {
        assert(body.take(len - start) =~= body);
    }
    if negative {
        Ok((-acc) as i32)
    } else {
        Ok(acc as i32)
    }
}

/// Parses a decimal 32-bit signed integer, in the same way, from a string.
pub fn parse_i32(s: &str) -> (result: Result<i32, I2CError>)
    ensures
        match result {
            Ok(n) => is_i32_decimal(s.spec_bytes()) && n as int == i32_decimal_value(
                s.spec_bytes(),
            ),
            Err(e) => !is_i32_decimal(s.spec_bytes()) && e == I2CError::ErrorInReadValue,
        },
{
    parse_i32_bytes(s.as_bytes())
}

/// Copies a byte slice into an owned vector, keeping its contents.
fn copy_bytes(slice: &[u8]) -> (bytes: Vec<u8>)
    ensures
        bytes@ == slice@,
{
    let mut bytes: Vec<u8> = Vec::new();
    let mut i: usize = 0;
    while i < slice.len()
        invariant
            i <= slice@.len(),
            bytes@.len() == i,
            forall|k: int| 0 <= k < i ==> bytes@[k] == slice@[k],
        decreases slice@.len() - i,
    {
        bytes.push(slice[i]);
        i = i + 1;
    }
    proof {
        assert(bytes@ =~= slice@);
    }
    bytes
}

/// The byte sequences of a batch of readings.
pub open spec fn reading_views(values: Seq<Vec<u8>>) -> Seq<Seq<u8>> {
    values.map_values(|v: Vec<u8>| v@)
}

/// The wrapping sum of the decimal values of a batch of readings, summed
/// left to right.
pub open spec fn readings_sum(values: Seq<Seq<u8>>) -> i32
    decreases values.len(),
{
    if values.len() == 0 {
        0i32
    } else {
        readings_sum(values.drop_last()).wrapping_add(
            i32_decimal_value(values.last()) as i32,
        )
    }
}

/// The position of the first reading that is not a decimal literal in
/// range, or the length when every reading is one.
pub open spec fn first_bad_reading(values: Seq<Seq<u8>>) -> int
    decreases values.len(),
{
    if values.len() == 0 {
        0
    } else if !is_i32_decimal(values[0]) {
        0
    } else {
        1 + first_bad_reading(values.drop_first())
    }
}

/// The bad-reading search stops at exactly the first reading that is not a
/// decimal literal: if the first `j` readings all are, and the one at `j`
/// is not (or `j` is the length), the search yields `j`.
proof fn lemma_first_bad_reading_at(values: Seq<Seq<u8>>, j: int)
    requires
        0 <= j <= values.len(),
        forall|i: int| 0 <= i < j ==> is_i32_decimal(#[trigger] values[i]),
        j < values.len() ==> !is_i32_decimal(values[j]),
    ensures
        first_bad_reading(values) == j,
    decreases values.len(),
{
    if values.len() > 0 && j > 0 {
        assert(forall|i: int|
            0 <= i < j - 1 ==> is_i32_decimal(#[trigger] values.drop_first()[i]));
        lemma_first_bad_reading_at(values.drop_first(), j - 1);
    }
}

/// Sums a batch of readings: each must be a decimal 32-bit literal, the
/// values are added left to right wrapping on overflow, and the first
/// reading that is not such a literal stops the run with the read-value
/// error. This fixes the aggregation rule on plain values, whatever device
/// the readings came from.
pub fn sum_readings(values: &Vec<Vec<u8>>) -> (result: Result<i32, I2CError>)
    ensures
        ({
            let vs = reading_views(values@);
            if first_bad_reading(vs) == vs.len() {
                result == Ok::<i32, I2CError>(readings_sum(vs))
            } else {
                result == Err::<i32, I2CError>(I2CError::ErrorInReadValue)
            }
        }),
{
    let ghost vs = reading_views(values@);
    let mut total: i32 = 0;
    let mut i: usize = 0;
    while i < values.len()
        invariant
            vs == reading_views(values@),
            i <= values@.len(),
            vs.len() == values@.len(),
            forall|k: int| 0 <= k < i ==> is_i32_decimal(#[trigger] vs[k]),
            total == readings_sum(vs.take(i as int)),
        decreases values@.len() - i,
    {
        let value = match parse_i32_bytes(values[i].as_slice()) {
            Ok(value) => value,
            Err(e) => {
                proof {
                    lemma_first_bad_reading_at(vs, i as int);
                }
                return Err(e);
            },
        };
        total = total.wrapping_add(value);
        proof {
            assert(vs.take(i + 1).drop_last() =~= vs.take(i as int));
            assert(vs.take(i + 1).last() == vs[i as int]);
        }
        i = i + 1;
    }
    proof {
        lemma_first_bad_reading_at(vs, vs.len() as int);
        assert(vs.take(vs.len() as int) =~= vs);
    }
    Ok(total)
}

/// Reads the device `times` times, extracting the value under
/// `operation_key` from each reading, and sums the collected readings with
/// [`sum_readings`]: added left to right, wrapping on overflow. What the
/// readings hold is the implementing driver's business; whatever comes
/// back, a reading that lacks the key or holds anything but a decimal
/// integer ends the run with the read-value error at that reading. The
/// pacing between reads is the embedding's business.
pub fn read_n_times_and_sum<R: READER>(
    data_reader: &mut R,
    operation_key: String,
    times: usize,
    ms_between_reads: u32,
) -> (result: Result<i32, I2CError>)
    ensures
        result matches Err(e) ==> e == I2CError::ErrorInReadValue,
        times == 0 ==> result == Ok::<i32, I2CError>(0),
{
    let mut readings: Vec<Vec<u8>> = Vec::new();
    let mut i: usize = 0;
    while i < times
        invariant
            times == 0 ==> readings@.len() == 0,
            forall|k: int|
                0 <= k < readings@.len() ==> is_i32_decimal(
                    #[trigger] reading_views(readings@)[k],
                ),
        decreases times - i,
    {
        let parsed_data: HashMap<String, String> = data_reader.read_and_parse();
        match parsed_data.get(&operation_key) {
            Some(data) => {
                let bytes = copy_bytes(data.as_str().as_bytes());
                match parse_i32_bytes(bytes.as_slice()) {
                    Ok(_) => {},
                    Err(e) => {
                        return Err(e);
                    },
                }
                let ghost before = readings@;
                readings.push(bytes);
                proof {
                    assert forall|k: int| 0 <= k < readings@.len() implies is_i32_decimal(
                        #[trigger] reading_views(readings@)[k],
                    ) by {
                        assert(reading_views(readings@)[k] == readings@[k]@);
                        if k < before.len() {
                            assert(readings@[k] == before[k]);
                            assert(reading_views(before)[k] == before[k]@);
                        } else {
                            assert(readings@[k] == bytes);
                        }
                    }
                }
            },
            _ => {
                return Err(I2CError::ErrorInReadValue);
            },
        }
        i = i + 1;
    }
    proof {
        lemma_first_bad_reading_at(
            reading_views(readings@),
            reading_views(readings@).len() as int,
        );
    }
    match sum_readings(&readings) {
        Ok(total) => {
            proof {
                if times == 0 {
                    assert(reading_views(readings@) =~= Seq::<Seq<u8>>::empty());
                }
            }
            Ok(total)
        },
        Err(_) => vstd::pervasive::unreached(),
    }
}

} // verus!
