//! Key material for signing client assertions and DPoP proofs.

use vstd::prelude::*;

use crate::jose::has_public_key;
use crate::encoding::{ascii_lower, hex_decode, hex_encode, hex_lower, is_hex_text, lemma_hex_lower_injective, lemma_hex_lower_len};

use atproto_identity::key::KeyType;

verus! {

/// The kinds of cryptographic key used on the AT Protocol.
#[derive(PartialEq, Eq, Structural, Clone, Copy)]
pub enum KeyKind {
    P256Public,
    P256Private,
    P384Public,
    P384Private,
    K256Public,
    K256Private,
    Ed25519Public,
    Ed25519Private,
}

/// Whether a key of this kind is a private key.
pub open spec fn is_private_kind(kind: KeyKind) -> bool {
    match kind {
        KeyKind::P256Private | KeyKind::P384Private | KeyKind::K256Private
        | KeyKind::Ed25519Private => true,
        _ => false,
    }
}

/// A key: its kind and its raw bytes.
pub struct KeyMaterial {
    pub kind: KeyKind,
    pub bytes: Vec<u8>,
}

/// The key-type enum of `atproto_identity`.
#[verifier::external_type_specification]
#[verifier::external_body]
pub struct ExKeyType(KeyType);

/// The outside crate's key type for a kind, variant for variant.
#[verifier::external_body]
pub(crate) fn key_type_of(kind: KeyKind) -> KeyType {
    match kind {
        KeyKind::P256Public => KeyType::P256Public,
        KeyKind::P256Private => KeyType::P256Private,
        KeyKind::P384Public => KeyType::P384Public,
        KeyKind::P384Private => KeyType::P384Private,
        KeyKind::K256Public => KeyType::K256Public,
        KeyKind::K256Private => KeyType::K256Private,
        KeyKind::Ed25519Public => KeyType::Ed25519Public,
        KeyKind::Ed25519Private => KeyType::Ed25519Private,
    }
}

/// A fresh random key from `atproto_identity::key::generate_key`. Trusted:
/// as that function's source shows, it succeeds exactly for the private
/// kinds, with a key of the kind asked for; a P-256 key is the 32 bytes of
/// a random `p256::SecretKey`, which `to_public` accepts. The bytes are
/// otherwise random, and the error's text is not stated.
#[verifier::external_body]
pub(crate) fn generate_key(kind: KeyKind) -> (key: Result<KeyMaterial, String>)
    ensures
        key is Ok <==> is_private_kind(kind),
        key matches Ok(k) ==> k.kind == kind,
        key matches Ok(k) ==> (kind == KeyKind::P256Private ==> k.bytes@.len() == 32 && has_public_key(
            kind,
            k.bytes@,
        )),
{
    match atproto_identity::key::generate_key(key_type_of(kind)) {
        Ok(key) => Ok(KeyMaterial { kind, bytes: key.bytes().to_vec() }),
        Err(e) => Err(e.to_string()),
    }
}

/// A copy of a key.
pub fn clone_key(key: &KeyMaterial) -> (copy: KeyMaterial)
    ensures
        copy.kind == key.kind,
        copy.bytes@ == key.bytes@,
{
    let mut bytes: Vec<u8> = Vec::new();
    let mut i: usize = 0;
    while i < key.bytes.len()
        invariant
            i <= key.bytes@.len(),
            bytes@ == key.bytes@.take(i as int),
        decreases key.bytes@.len() - i,
    {
        bytes.push(key.bytes[i]);
        i = i + 1;
        assert(bytes@ =~= key.bytes@.take(i as int));
    }
    assert(key.bytes@.take(key.bytes@.len() as int) =~= key.bytes@);
    KeyMaterial { kind: key.kind, bytes }
}

/// A seed that fixes the deployment's signing key: 64 hex digits, that is
/// 32 bytes.
pub open spec fn is_key_seed(seed: Seq<char>) -> bool {
    seed.len() == 64 && is_hex_text(seed)
}

/// Key bytes spelled by a seed: 32 bytes whose lowercase hex is the seed
/// in lowercase.
pub open spec fn seeded_by(bytes: Seq<u8>, seed: Seq<char>) -> bool {
    bytes.len() == 32 && hex_lower(bytes) == ascii_lower(seed)
}

/// The deployment's signing key: a P-256 private key shared by every
/// authorization this server starts. With a valid seed its bytes are the
/// 32 bytes the seed spells in hex, so the key is the same across restarts;
/// without one (no seed, or one that is not 64 hex digits) a fresh random
/// key is generated.
pub fn deployment_signing_key(seed: Option<String>) -> (key: KeyMaterial)
    ensures
        key.kind == KeyKind::P256Private,
        match seed {
            Some(s) => is_key_seed(s@) ==> seeded_by(key.bytes@, s@),
            None => true,
        },
        !(seed matches Some(s) && is_key_seed(s@)) ==> key.bytes@.len() == 32 && has_public_key(
            KeyKind::P256Private,
            key.bytes@,
        ),
{
    if let Some(s) = seed {
        if s.unicode_len() == 64 {
            if let Some(bytes) = hex_decode(s.as_str()) {
                proof {
                    lemma_hex_lower_len(bytes@);
                }
                return KeyMaterial { kind: KeyKind::P256Private, bytes };
            }
        }
    }
    match generate_key(KeyKind::P256Private) {
        Ok(k) => k,
        Err(_) => {
            // Keys of a private kind are always generated.
            proof {
                assert(is_private_kind(KeyKind::P256Private));
            }
            assert(false);
            KeyMaterial { kind: KeyKind::P256Private, bytes: Vec::new() }
        },
    }
}

/// A seed fixes the signing key: the keys made from one seed, at any two
/// starts of the server, have the same bytes.
pub proof fn law_seed_determines_key(seed: Seq<char>, first: Seq<u8>, second: Seq<u8>)
    requires
        seeded_by(first, seed),
        seeded_by(second, seed),
    ensures
        first == second,
{
    lemma_hex_lower_injective(first, second);
}

/// The key's raw bytes, in lowercase hex.
pub fn key_data_to_string(key: &KeyMaterial) -> (hex: String)
    ensures
        hex@ == hex_lower(key.bytes@),
{
    hex_encode(key.bytes.as_slice())
}

} // verus!
