//! The I2C error mapping, the decimal parser and the reader capability.

use std::collections::HashMap;

use esp32framework::serial::i2c::map_driver_init_error;
use esp32framework::serial::i2c::map_master_transfer_error;
use esp32framework::serial::i2c::map_slave_transfer_error;
use esp32framework::serial::i2c::parse_i32;
use esp32framework::serial::i2c::parse_i32_bytes;
use esp32framework::serial::i2c::sum_readings;
use esp32framework::serial::i2c::read_n_times_and_sum;
use esp32framework::serial::i2c::I2CError;
use esp32framework::serial::i2c::READER;

#[test]
fn status_codes_map_to_errors() {
    assert_eq!(map_master_transfer_error(0x102), I2CError::InvalidArg);
    assert_eq!(map_master_transfer_error(0x101), I2CError::BufferTooSmall);
    assert_eq!(map_master_transfer_error(-1), I2CError::NoMoreHeapMemory);
    assert_eq!(map_slave_transfer_error(0x107), I2CError::TimeoutError);
    assert_eq!(map_slave_transfer_error(0x102), I2CError::InvalidArg);
    assert_eq!(map_driver_init_error(0x102), I2CError::InvalidArg);
    assert_eq!(map_driver_init_error(0x103), I2CError::DriverError);
}

#[test]
fn parses_decimal_integers_exactly() {
    assert_eq!(parse_i32("0"), Ok(0));
    assert_eq!(parse_i32("42"), Ok(42));
    assert_eq!(parse_i32("+42"), Ok(42));
    assert_eq!(parse_i32("-42"), Ok(-42));
    assert_eq!(parse_i32("2147483647"), Ok(i32::MAX));
    assert_eq!(parse_i32("-2147483648"), Ok(i32::MIN));
    assert_eq!(parse_i32("007"), Ok(7));
}

#[test]
fn rejects_non_decimal_input() {
    assert_eq!(parse_i32(""), Err(I2CError::ErrorInReadValue));
    assert_eq!(parse_i32("-"), Err(I2CError::ErrorInReadValue));
    assert_eq!(parse_i32("+"), Err(I2CError::ErrorInReadValue));
    assert_eq!(parse_i32("12a"), Err(I2CError::ErrorInReadValue));
    assert_eq!(parse_i32(" 12"), Err(I2CError::ErrorInReadValue));
    assert_eq!(parse_i32("2147483648"), Err(I2CError::ErrorInReadValue));
    assert_eq!(parse_i32("-2147483649"), Err(I2CError::ErrorInReadValue));
    assert_eq!(parse_i32("99999999999999999999"), Err(I2CError::ErrorInReadValue));
}

struct FixedReader {
    readings: Vec<HashMap<String, String>>,
    next: usize,
}

impl READER for FixedReader {
    fn read_and_parse(&mut self) -> HashMap<String, String> {
        let reading = self.readings[self.next % self.readings.len()].clone();
        self.next += 1;
        reading
    }
}

fn reading(key: &str, value: &str) -> HashMap<String, String> {
    let mut map = HashMap::new();
    map.insert(String::from(key), String::from(value));
    map
}

#[test]
fn sums_repeated_readings() {
    let mut reader = FixedReader { readings: vec![reading("temperature", "21")], next: 0 };
    let total = read_n_times_and_sum(&mut reader, String::from("temperature"), 4, 10);
    assert_eq!(total, Ok(84));
}

#[test]
fn missing_key_ends_the_run() {
    let mut reader = FixedReader { readings: vec![reading("humidity", "50")], next: 0 };
    let total = read_n_times_and_sum(&mut reader, String::from("temperature"), 2, 10);
    assert_eq!(total, Err(I2CError::ErrorInReadValue));
}

#[test]
fn unparsable_value_ends_the_run() {
    let mut reader = FixedReader { readings: vec![reading("temperature", "warm")], next: 0 };
    let total = read_n_times_and_sum(&mut reader, String::from("temperature"), 2, 10);
    assert_eq!(total, Err(I2CError::ErrorInReadValue));
}

#[test]
fn sum_readings_adds_collected_values() {
    let readings = vec![b"21".to_vec(), b"-1".to_vec(), b"+30".to_vec()];
    assert_eq!(sum_readings(&readings), Ok(50));
    assert_eq!(sum_readings(&vec![]), Ok(0));
    assert_eq!(parse_i32_bytes(b"-7"), Ok(-7));
}

#[test]
fn sum_readings_stops_at_first_bad_reading() {
    let readings = vec![b"21".to_vec(), b"warm".to_vec(), b"30".to_vec()];
    assert_eq!(sum_readings(&readings), Err(I2CError::ErrorInReadValue));
    let wrapping = vec![b"2147483647".to_vec(), b"1".to_vec()];
    assert_eq!(sum_readings(&wrapping), Ok(i32::MIN));
}

#[test]
fn sum_wraps_on_overflow() {
    let mut reader = FixedReader {
        readings: vec![reading("counter", "2147483647"), reading("counter", "1")],
        next: 0,
    };
    let total = read_n_times_and_sum(&mut reader, String::from("counter"), 2, 10);
    assert_eq!(total, Ok(i32::MIN));
}
