use memsecurity::CsprngArray;
use memsecurity::CsprngArraySimple;
use memsecurity::MinMaxNum;

#[test]
fn gen_sizes_are_exact() {
    assert_eq!(CsprngArraySimple::gen_u8_array().expose().len(), 8);
    assert_eq!(CsprngArraySimple::gen_u16_array().expose().len(), 16);
    assert_eq!(CsprngArraySimple::gen_u24_array().expose().len(), 24);
    assert_eq!(CsprngArraySimple::gen_u32_array().expose().len(), 32);
    assert_eq!(CsprngArraySimple::gen_u64_array().expose().len(), 64);
    let _ = CsprngArraySimple::gen_u8_byte();
}

#[test]
fn generated_bytes_are_not_constant() {
    // Two independent 32-byte draws collide with probability 2^-256.
    let first = CsprngArray::<32>::gen();
    let second = CsprngArray::<32>::gen();
    assert_ne!(first.expose(), second.expose());
    assert_eq!(first.expose(), *first.dangerous_debug());
}

#[test]
fn take_copies_then_zeroizes() {
    let value = CsprngArray::<16>::gen();
    let expected = value.expose();
    let mut buffer = [0u8; 16];
    value.take(&mut buffer).unwrap();
    assert_eq!(buffer, expected);
}

#[test]
fn take_zeroize_on_error_copies() {
    let value = CsprngArray::<16>::gen();
    let expected = value.expose();
    let mut buffer = [0u8; 16];
    value.take_zeroize_on_error(&mut buffer).unwrap();
    assert_eq!(buffer, expected);
}

#[test]
fn zeroize_clears_random_array() {
    let mut value = CsprngArray::<32>::gen();
    value.zeroize();
    assert_eq!(value.expose(), [0u8; 32]);
}

#[test]
fn min_max_constants() {
    assert_eq!(u8::MIN_VALUE, 0);
    assert_eq!(u8::MAX_VALUE, 255);
    assert_eq!(u16::MAX_VALUE, 65535);
    assert_eq!(u32::MIN_VALUE, 0);
    assert_eq!(u64::MAX_VALUE, u64::MAX);
    assert_eq!(u128::MAX_VALUE, u128::MAX);
    assert_eq!(i8::MIN_VALUE, -128);
    assert_eq!(i16::MAX_VALUE, 32767);
    assert_eq!(i32::MIN_VALUE, i32::MIN);
    assert_eq!(i64::MAX_VALUE, i64::MAX);
    assert_eq!(i128::MIN_VALUE, i128::MIN);
}
