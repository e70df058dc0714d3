use schultz::utils::{OptDisplay, Sha512};

#[test]
fn opt_display_works() {
    let some_value: Option<u32> = Some(12345);

    assert_eq!(
        OptDisplay::new(some_value.as_ref(), "does not matter").to_string(),
        "12345"
    );

    let none_value: Option<u32> = None;
    assert_eq!(
        OptDisplay::new(none_value.as_ref(), "should be none").to_string(),
        "should be none"
    );
}

#[test]
fn opt_display_of_a_string() {
    let name = Some(String::from("casper"));
    assert_eq!(OptDisplay::new(name, "none").to_string(), "casper");
}

#[test]
fn sha512_of_abc() {
    let hash = Sha512::new(b"abc");
    assert_eq!(
        hash.to_hex(),
        "ddaf35a193617abacc417349ae20413112e6fa4e89a97ea20a9eeee64b55d39a\
         2192992a274fc1a836ba3c23a3feebbd454d4423643ce80e2a9ac94fa54ca49f"
    );
    assert_eq!(hash.bytes().len(), Sha512::SIZE);
    assert_eq!(hash.bytes()[0], 0xdd);
}

#[test]
fn sha512_equality_and_order_follow_the_bytes() {
    let a = Sha512::new(b"abc");
    let b = Sha512::new(b"abc");
    let c = Sha512::new(b"abd");
    assert!(a == b);
    assert!(a != c);
    assert_eq!(a.cmp(&c), a.bytes().cmp(c.bytes()));
    assert_eq!(Sha512([0u8; 64]).to_hex(), "0".repeat(128));
}

#[test]
fn sha512_message_digest_is_available() {
    let digest = Sha512::create_message_digest().expect("SHA-512 is known to OpenSSL").digest();
    assert_eq!(digest.size(), 64);
    assert_eq!(digest.type_(), openssl::nid::Nid::SHA512);
    assert_eq!(Sha512::NID, openssl::nid::Nid::SHA512.as_raw());
}
