use my_atmosphere::encoding::generate_random_hex;
use my_atmosphere::keys::{clone_key, deployment_signing_key, key_data_to_string, KeyKind, KeyMaterial};

#[test]
fn hex_encoding_is_lowercase_two_digits_per_byte() {
    let k = KeyMaterial { kind: KeyKind::P256Public, bytes: vec![0x00, 0xab, 0xff, 0x10] };
    assert_eq!(key_data_to_string(&k), "00abff10");
    let empty = KeyMaterial { kind: KeyKind::P256Public, bytes: vec![] };
    assert_eq!(key_data_to_string(&empty), "");
}

#[test]
fn random_hex_has_twice_the_length() {
    let h = generate_random_hex(16);
    assert_eq!(h.len(), 32);
    assert!(h.chars().all(|c| c.is_ascii_hexdigit() && !c.is_ascii_uppercase()));
    assert_eq!(generate_random_hex(0), "");
    assert_eq!(generate_random_hex(30).len(), 60);
}

#[test]
fn unseeded_signing_key_is_a_fresh_p256_key() {
    let k = deployment_signing_key(None);
    assert!(k.kind == KeyKind::P256Private);
    assert_eq!(k.bytes.len(), 32);
    assert_ne!(k.bytes, deployment_signing_key(None).bytes);
}

#[test]
fn key_string_is_hex_of_bytes() {
    let k = KeyMaterial { kind: KeyKind::P256Private, bytes: vec![1, 2, 254] };
    assert_eq!(key_data_to_string(&k), "0102fe");
    let c = clone_key(&k);
    assert!(c.kind == k.kind);
    assert_eq!(c.bytes, k.bytes);
}
