//! Behaviour of the display helpers: speed formatting and grid layout.

use rdma_mon::ui::format_speed;
use rdma_mon::ui::grid_dims;
use rdma_mon::ui::u64_to_decimal;

#[test]
fn decimal_notation() {
    assert_eq!(u64_to_decimal(0), "0");
    assert_eq!(u64_to_decimal(7), "7");
    assert_eq!(u64_to_decimal(10), "10");
    assert_eq!(u64_to_decimal(90210), "90210");
    assert_eq!(u64_to_decimal(u64::MAX), "18446744073709551615");
}

#[test]
fn speeds_below_one_kilobyte_are_bytes() {
    assert_eq!(format_speed(0), "0 B/s");
    assert_eq!(format_speed(500), "500 B/s");
    assert_eq!(format_speed(1023), "1023 B/s");
}

#[test]
fn kilobyte_speeds_keep_one_decimal() {
    assert_eq!(format_speed(1024), "1.0 KB/s");
    assert_eq!(format_speed(1536), "1.5 KB/s");
    assert_eq!(format_speed(10_000), "9.7 KB/s");
}

#[test]
fn megabyte_and_gigabyte_speeds() {
    assert_eq!(format_speed(1024 * 1024), "1.0 MB/s");
    assert_eq!(format_speed(5 * 1024 * 1024 + 512 * 1024), "5.5 MB/s");
    assert_eq!(format_speed(3 * 1024 * 1024 * 1024), "3.0 GB/s");
    assert_eq!(format_speed(u64::MAX), "17179869183.9 GB/s");
}

#[test]
fn grid_shapes() {
    assert_eq!(grid_dims(0), (0, 0));
    assert_eq!(grid_dims(1), (1, 1));
    assert_eq!(grid_dims(2), (2, 1));
    assert_eq!(grid_dims(3), (2, 2));
    assert_eq!(grid_dims(4), (2, 2));
    assert_eq!(grid_dims(5), (3, 2));
    assert_eq!(grid_dims(6), (3, 2));
    assert_eq!(grid_dims(7), (3, 3));
}
