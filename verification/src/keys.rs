//! Public keys and payment hashes, and their texts.

use crate::text::{hex_digit, hex_text};
use vstd::prelude::*;
use vstd::string::*;

verus! {

/// The compressed form of the public key that a text denotes, as the curve library reads it.
pub uninterp spec fn public_key_in(text: Seq<char>) -> Option<Seq<u8>>;

/// `secp256k1::PublicKey::from_str`, the key in its compressed form and the error as its text. The
/// parser has one error only. Which texts are keys is left to the library.
#[verifier::external_body]
fn key_from_text(text: &str) -> (r: Result<Vec<u8>, String>)
    ensures
        match r {
            Ok(key) => public_key_in(text@) == Some(key@) && key@.len() == 33,
            Err(e) => public_key_in(text@) is None && e@ == "malformed public key"@,
        },
{
    <bitcoin::secp256k1::PublicKey as std::str::FromStr>::from_str(text)
        .map(|key| key.serialize().to_vec())
        .map_err(|e| e.to_string())
}

/// `secp256k1::PublicKey::from_slice` on a key in compressed form, and `to_string` of the key: the
/// hexadecimal text of the same bytes, from which `from_str` reads the key back. Bytes that are no
/// key are rejected, as their hexadecimal text is.
#[verifier::external_body]
fn key_to_text(key: &Vec<u8>) -> (r: Option<String>)
    requires
        key@.len() == 33,
    ensures
        match r {
            Some(t) => t@ == hex_text(key@) && public_key_in(t@) == Some(key@),
            None => public_key_in(hex_text(key@)) is None,
        },
{
    bitcoin::secp256k1::PublicKey::from_slice(key.as_slice()).ok().map(|k| k.to_string())
}

/// `sha256::Hash::from_slice` on the bytes of a hash, and `to_string` of the hash: the hexadecimal
/// text of the bytes, first byte first.
#[verifier::external_body]
fn hash_to_text(hash: &Vec<u8>) -> (r: String)
    requires
        hash@.len() == 32,
    ensures
        r@ == hex_text(hash@),
{
    <bitcoin_hashes::sha256::Hash as bitcoin_hashes::Hash>::from_slice(hash.as_slice())
        .unwrap()
        .to_string()
}

/// Reads a public key from its text, in compressed form; the error is a text to be shown.
pub fn parse_public_key(text: &str) -> (r: Result<Vec<u8>, String>)
    ensures
        match r {
            Ok(key) => public_key_in(text@) == Some(key@) && key@.len() == 33,
            Err(e) => public_key_in(text@) is None && e@ == "malformed public key"@,
        },
{
    key_from_text(text)
}

/// The text of a public key in compressed form, or nothing where the bytes are no key. The text
/// reads back as the key.
pub fn public_key_text(key: &Vec<u8>) -> (r: Option<String>)
    ensures
        match r {
            Some(t) => key@.len() == 33 && t@ == hex_text(key@) && public_key_in(t@) == Some(key@),
            None => key@.len() != 33 || public_key_in(hex_text(key@)) is None,
        },
{
    if key.len() != 33 {
        return None;
    }
    key_to_text(key)
}

/// The text of a payment hash.
pub fn payment_hash_text(hash: &Vec<u8>) -> (r: String)
    requires
        hash@.len() == 32,
    ensures
        r@ == hex_text(hash@),
{
    hash_to_text(hash)
}

/// Two byte strings never share a hexadecimal text.
pub proof fn law_hex_text_injective(a: Seq<u8>, b: Seq<u8>)
    requires
        hex_text(a) == hex_text(b),
    ensures
        a == b,
{
    assert(hex_text(a).len() == a.len() * 2);
    assert(hex_text(b).len() == b.len() * 2);
    assert forall|i: int| 0 <= i < a.len() implies a[i] == b[i] by {
        let k = 2 * i;
        assert(k % 2 == 0 && k / 2 == i && (k + 1) % 2 == 1 && (k + 1) / 2 == i);
        assert(hex_text(a)[k] == hex_digit(a[i] as int / 16));
        assert(hex_text(b)[k] == hex_digit(b[i] as int / 16));
        assert(hex_text(a)[k + 1] == hex_digit(a[i] as int % 16));
        assert(hex_text(b)[k + 1] == hex_digit(b[i] as int % 16));
        lemma_byte_hex(a[i], b[i]);
    }
    assert(a =~= b);
}

proof fn lemma_byte_hex(x: u8, y: u8)
    requires
        hex_digit(x as int / 16) == hex_digit(y as int / 16),
        hex_digit(x as int % 16) == hex_digit(y as int % 16),
    ensures
        x == y,
{
}

} // verus!
