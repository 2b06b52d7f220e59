use lending_vesting::key::Key;
use lending_vesting::lending::error::ErrorCode;
use lending_vesting::lending::price::{price_in_wei, read_pyth_price};

fn price_account(len: usize, price: i64, expo: i32) -> Vec<u8> {
    let mut data = vec![0u8; len];
    if len >= 24 {
        data[20..24].copy_from_slice(&expo.to_le_bytes());
    }
    if len >= 116 {
        data[108..116].copy_from_slice(&price.to_le_bytes());
    }
    data
}

#[test]
fn reads_price_and_exponent() {
    let data = price_account(200, 15_000_000_000, -8);
    assert_eq!(read_pyth_price(&data), Ok((15_000_000_000, -8)));
}

#[test]
fn reads_account_of_minimum_length() {
    let data = price_account(117, 99_990_000, -8);
    assert_eq!(read_pyth_price(&data), Ok((99_990_000, -8)));
}

#[test]
fn refuses_account_of_116_bytes() {
    let data = price_account(116, 99_990_000, -8);
    assert_eq!(read_pyth_price(&data), Err(ErrorCode::InvalidPrice));
}

#[test]
fn refuses_short_account() {
    assert_eq!(read_pyth_price(&[]), Err(ErrorCode::InvalidPrice));
    assert_eq!(read_pyth_price(&[7u8; 50]), Err(ErrorCode::InvalidPrice));
}

#[test]
fn refuses_zero_price() {
    let data = price_account(200, 0, -8);
    assert_eq!(read_pyth_price(&data), Err(ErrorCode::InvalidPrice));
}

#[test]
fn negative_price_reads_as_its_magnitude() {
    let data = price_account(200, -12_345, -2);
    assert_eq!(read_pyth_price(&data), Ok((12_345, -2)));
    let data = price_account(200, i64::MIN, 0);
    assert_eq!(read_pyth_price(&data), Ok((1u64 << 63, 0)));
    let data = price_account(200, -1, i32::MIN);
    assert_eq!(read_pyth_price(&data), Ok((1, i32::MIN)));
}

#[test]
fn reads_little_endian_bytes() {
    let mut data = vec![0u8; 120];
    data[20] = 0xfe;
    data[21] = 0xff;
    data[22] = 0xff;
    data[23] = 0xff;
    data[108] = 0x01;
    data[109] = 0x02;
    data[115] = 0x01;
    assert_eq!(read_pyth_price(&data), Ok((0x0100_0000_0000_0201, -2)));
}

#[test]
fn scales_price_by_exponent() {
    assert_eq!(price_in_wei(150, -8), Some(15_000_000_000));
    assert_eq!(price_in_wei(5, 0), Some(5));
    assert_eq!(price_in_wei(1, -19), Some(10_000_000_000_000_000_000));
}

#[test]
fn scaling_overflows() {
    assert_eq!(price_in_wei(1, -20), None);
    assert_eq!(price_in_wei(2, -19), None);
    assert_eq!(price_in_wei(1, 1), None);
    assert_eq!(price_in_wei(u64::MAX, -1), None);
    assert_eq!(price_in_wei(1, i32::MIN), None);
}

#[test]
fn keys_compare_by_bytes() {
    let a = Key::new([1u8; 32]);
    let b = Key::new([1u8; 32]);
    let mut bytes = [1u8; 32];
    bytes[31] = 2;
    let c = Key::new(bytes);
    assert!(a.same_as(&b));
    assert!(!a.same_as(&c));
    assert!(c.same_as(&c));
}
