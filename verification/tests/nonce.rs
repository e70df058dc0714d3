use schultz::primitives::Nonce;

#[test]
fn nonce_is_displayed_in_sixteen_upper_case_hex_digits() {
    assert_eq!(Nonce::new(0).to_string(), "0000000000000000");
    assert_eq!(Nonce::new(255).to_string(), "00000000000000FF");
    assert_eq!(Nonce::new(0x0123_4567_89AB_CDEF).to_string(), "0123456789ABCDEF");
    assert_eq!(Nonce::new(u64::MAX).to_string(), "FFFFFFFFFFFFFFFF");
    assert_eq!(Nonce::new(0xdead_beef).to_string(), format!("{:016X}", 0xdead_beefu64));
}
