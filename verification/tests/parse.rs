//! Behaviour of the counter-text parser.

use rdma_mon::fast_io::CounterError;
use rdma_mon::fast_io::parse_counter;

#[test]
fn plain_number_with_newline() {
    assert_eq!(parse_counter(b"123\n"), Ok(123));
}

#[test]
fn number_to_end_of_data() {
    assert_eq!(parse_counter(b"4096"), Ok(4096));
}

#[test]
fn zero_parses() {
    assert_eq!(parse_counter(b"0\n"), Ok(0));
}

#[test]
fn nul_and_space_terminate() {
    assert_eq!(parse_counter(b"77\0garbage"), Ok(77));
    assert_eq!(parse_counter(b"88 99"), Ok(88));
}

#[test]
fn bytes_after_terminator_are_ignored() {
    assert_eq!(parse_counter(b"5\nx!@"), Ok(5));
}

#[test]
fn empty_read_is_a_read_error() {
    assert_eq!(parse_counter(b""), Err(CounterError::Read));
}

#[test]
fn corrupted_byte_is_a_parse_error() {
    assert_eq!(parse_counter(b"12a3\n"), Err(CounterError::Parse));
    assert_eq!(parse_counter(b"-5\n"), Err(CounterError::Parse));
    assert_eq!(parse_counter(b"\t9\n"), Err(CounterError::Parse));
}

#[test]
fn largest_counter_value() {
    assert_eq!(parse_counter(b"18446744073709551615\n"), Ok(u64::MAX));
}

#[test]
fn accumulation_wraps_at_64_bits() {
    // One past u64::MAX wraps to 0, as the allocation-free accumulation does.
    assert_eq!(parse_counter(b"18446744073709551616\n"), Ok(0));
}
