use exec_gateway::{
    base64_decode, base64_encode, hex_encode, sign_hex_sha256, sign_hex_sha512, sha512,
    u64_to_string, urlencode, Fixed,
};

#[test]
fn hex_encoding_is_two_lowercase_digits_per_byte() {
    assert_eq!(hex_encode(&[0xbe, 0xef]), "beef");
    assert_eq!(hex_encode(&[]), "");
    assert_eq!(hex_encode(&[0x00, 0x0a, 0xff]), "000aff");
}

#[test]
fn hmac_sha256_matches_the_published_vector() {
    assert_eq!(
        sign_hex_sha256("Jefe", "what do ya want for nothing?"),
        "5bdcc146bf60754e6a042426089575c75a003f089d2739839dec58b964ec3843"
    );
}

#[test]
fn hmac_sha512_matches_the_published_vector() {
    assert_eq!(
        sign_hex_sha512("Jefe", "what do ya want for nothing?"),
        "164b7a7bfcf819e2e395fbe73b56e0a387bd64222e831fd610270cd7ea2505549758bf75c05a994a6d034f65f8f0e6fdcaeab1a34d4a6b4b636e070a38bce737"
    );
}

#[test]
fn sha512_of_the_empty_message() {
    assert_eq!(
        hex_encode(&sha512(b"")),
        "cf83e1357eefb8bdf1542850d66d8007d620e4050b5715dc83f4a921d36ce9ce47d0d13c5d85f2b0ff8318d2877eec2f63b931bd47417a81a538327af927da3e"
    );
}

#[test]
fn base64_encodes_and_decodes() {
    assert_eq!(base64_encode(b"hello"), "aGVsbG8=");
    assert_eq!(base64_decode("aGVsbG8=").unwrap(), b"hello".to_vec());
    assert!(base64_decode("not base64!!").is_none());
}

#[test]
fn urlencode_keeps_unreserved_bytes() {
    assert_eq!(urlencode("2024-01-01T00:00:00"), "2024-01-01T00%3A00%3A00");
    assert_eq!(urlencode("abc-._~XYZ019"), "abc-._~XYZ019");
    assert_eq!(urlencode("a b+c"), "a%20b%2Bc");
}

#[test]
fn u64_rendering() {
    assert_eq!(u64_to_string(0), "0");
    assert_eq!(u64_to_string(7), "7");
    assert_eq!(u64_to_string(1_700_000_000_000), "1700000000000");
    assert_eq!(u64_to_string(u64::MAX), "18446744073709551615");
}

#[test]
fn fixed_parses_exact_values() {
    assert_eq!(Fixed::parse("100.05").unwrap().raw, 100_050_000_000);
    assert_eq!(Fixed::parse("0.0005").unwrap().raw, 500_000);
    assert_eq!(Fixed::parse("1").unwrap().raw, 1_000_000_000);
    assert_eq!(Fixed::parse(".5").unwrap().raw, 500_000_000);
    assert_eq!(Fixed::parse("0.000000001").unwrap().raw, 1);
    assert_eq!(Fixed::parse("1000000000").unwrap().raw, 1_000_000_000_000_000_000);
}

#[test]
fn fixed_rejects_malformed_strings() {
    assert!(Fixed::parse("").is_none());
    assert!(Fixed::parse("1.").is_none());
    assert!(Fixed::parse(".").is_none());
    assert!(Fixed::parse("1.0000000001").is_none()); // ten fractional digits
    assert!(Fixed::parse("12a").is_none());
    assert!(Fixed::parse("1.2.3").is_none());
    assert!(Fixed::parse("-1").is_none());
    assert!(Fixed::parse("1000000001").is_none()); // over the supported range
}

#[test]
fn fixed_renders_canonically() {
    assert_eq!(Fixed::parse("0.1").unwrap().to_string(), "0.1");
    assert_eq!(Fixed::parse("1.0").unwrap().to_string(), "1");
    assert_eq!(Fixed::parse("100.04995").unwrap().to_string(), "100.04995");
    assert_eq!(Fixed::parse("0.0005").unwrap().to_string(), "0.0005");
    assert_eq!(Fixed::parse("0").unwrap().to_string(), "0");
}

#[test]
fn fixed_round_trips_through_text() {
    for s in ["0.1", "42", "100.04995", "0.000000001", "999999999.999999999"] {
        let v = Fixed::parse(s).unwrap();
        assert_eq!(Fixed::parse(&v.to_string()).unwrap(), v);
    }
}

#[test]
fn fixed_arithmetic_is_exact() {
    let a = Fixed::parse("0.3").unwrap();
    let b = Fixed::parse("0.7").unwrap();
    assert_eq!(a.add(b), Fixed::parse("1").unwrap());
    assert_eq!(b.sub(a), Fixed::parse("0.4").unwrap());
    assert_eq!(a.mul_trunc(b), Fixed::parse("0.21").unwrap());
}
