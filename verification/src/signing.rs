//! Message authentication codes.
use vstd::prelude::*;
use vstd::string::*;
use vstd::utf8::*;

use crate::codec;
use crate::types::ConnectorError;

verus! {

/// The longest key, in bytes, that is digested: its length in bits fits in 64 bits.
pub const MAX_KEY_LEN: u64 = 0x1FFF_FFFF_FFFF_FFFF;

/// The longest message, in bytes, that is signed with SHA-256: together with a block of 64 bytes
/// its length in bits fits in 64 bits.
pub const MAX_SHA256_MESSAGE_LEN: u64 = 0x1FFF_FFFF_FFFF_FFBF;

/// The longest message, in bytes, that is signed with SHA-512: together with a block of 128
/// bytes its length in bits fits in 64 bits.
pub const MAX_SHA512_MESSAGE_LEN: u64 = 0x1FFF_FFFF_FFFF_FF7F;

/// The HMAC of a message under a key, with SHA-256.
pub uninterp spec fn hmac_sha256(key: Seq<u8>, message: Seq<u8>) -> Seq<u8>;

/// The HMAC of a message under a key, with SHA-512.
pub uninterp spec fn hmac_sha512(key: Seq<u8>, message: Seq<u8>) -> Seq<u8>;

/// `ring::hmac::sign` with `HMAC_SHA256`: the tag that `hmac_sha256` names, of 32 bytes. The
/// bounds on the lengths are those beyond which the digest panics.
#[verifier::external_body]
fn sign_sha256(key: &[u8], message: &[u8]) -> (r: Vec<u8>)
    requires
        key@.len() <= MAX_KEY_LEN,
        message@.len() <= MAX_SHA256_MESSAGE_LEN,
    ensures
        r@ == hmac_sha256(key@, message@),
        r@.len() == 32,
{
    let key = ring::hmac::Key::new(ring::hmac::HMAC_SHA256, key);
    ring::hmac::sign(&key, message).as_ref().to_vec()
}

/// `ring::hmac::sign` with `HMAC_SHA512`: the tag that `hmac_sha512` names, of 64 bytes. The
/// bounds on the lengths are those beyond which the digest panics.
#[verifier::external_body]
fn sign_sha512(key: &[u8], message: &[u8]) -> (r: Vec<u8>)
    requires
        key@.len() <= MAX_KEY_LEN,
        message@.len() <= MAX_SHA512_MESSAGE_LEN,
    ensures
        r@ == hmac_sha512(key@, message@),
        r@.len() == 64,
{
    let key = ring::hmac::Key::new(ring::hmac::HMAC_SHA512, key);
    ring::hmac::sign(&key, message).as_ref().to_vec()
}

/// Whether a secret and a message are short enough to be signed with SHA-256.
pub open spec fn signable_sha256(secret: Seq<char>, message: Seq<char>) -> bool {
    encode_utf8(secret).len() <= MAX_KEY_LEN && encode_utf8(message).len()
        <= MAX_SHA256_MESSAGE_LEN
}

/// Whether a secret and a message are short enough to be signed with SHA-512.
pub open spec fn signable_sha512(secret: Seq<char>, message: Seq<char>) -> bool {
    encode_utf8(secret).len() <= MAX_KEY_LEN && encode_utf8(message).len()
        <= MAX_SHA512_MESSAGE_LEN
}

/// UTF-8 takes at most four bytes for a character.
pub proof fn lemma_utf8_length(text: Seq<char>)
    ensures
        encode_utf8(text).len() <= 4 * text.len(),
    decreases text.len(),
{
    if text.len() > 0 {
        lemma_utf8_length(text.drop_first());
    }
}

/// A secret and a message of up to 2^58 characters are short enough to be signed.
pub proof fn lemma_signable(secret: Seq<char>, message: Seq<char>)
    requires
        secret.len() <= 0x400_0000_0000_0000,
        message.len() <= 0x400_0000_0000_0000,
    ensures
        signable_sha256(secret, message),
        signable_sha512(secret, message),
{
    lemma_utf8_length(secret);
    lemma_utf8_length(message);
}

/// The signature of a message in lowercase hexadecimal, with SHA-256.
pub open spec fn signature_sha256(secret: Seq<char>, message: Seq<char>) -> Seq<char> {
    codec::hex_text(hmac_sha256(encode_utf8(secret), encode_utf8(message)))
}

/// The signature of a message in lowercase hexadecimal, with SHA-512.
pub open spec fn signature_sha512(secret: Seq<char>, message: Seq<char>) -> Seq<char> {
    codec::hex_text(hmac_sha512(encode_utf8(secret), encode_utf8(message)))
}

/// A signature holds the bytes of the HMAC of the message under the secret, both in UTF-8.
pub proof fn lemma_signature_holds_hmac(secret: Seq<char>, message: Seq<char>)
    ensures
        codec::hex_bytes(signature_sha256(secret, message)) == Some(
            hmac_sha256(encode_utf8(secret), encode_utf8(message)),
        ),
        codec::hex_bytes(signature_sha512(secret, message)) == Some(
            hmac_sha512(encode_utf8(secret), encode_utf8(message)),
        ),
{
    codec::lemma_hex_round_trip(hmac_sha256(encode_utf8(secret), encode_utf8(message)));
    codec::lemma_hex_round_trip(hmac_sha512(encode_utf8(secret), encode_utf8(message)));
}

/// What can be signed: a secret of less than 2^61 bytes in UTF-8, and a message that is less than
/// that together with one block of the digest.
pub proof fn lemma_signable_lengths(secret: Seq<char>, message: Seq<char>)
    ensures
        signable_sha256(secret, message) <==> encode_utf8(secret).len() < 0x2000_0000_0000_0000
            && encode_utf8(message).len() + 64 < 0x2000_0000_0000_0000,
        signable_sha512(secret, message) <==> encode_utf8(secret).len() < 0x2000_0000_0000_0000
            && encode_utf8(message).len() + 128 < 0x2000_0000_0000_0000,
{
}

/// Signs a message with SHA-256, in hexadecimal.
pub fn sign_message_sha256(secret: &str, message: &str) -> (r: Result<String, ConnectorError>)
    ensures
        r is Ok <==> signable_sha256(secret@, message@),
        r matches Ok(signature) ==> signature@ == signature_sha256(secret@, message@)
            && signature@.len() == 64,
        r matches Err(e) ==> e is RequestEncodingFailed,
{
    let key = secret.as_bytes();
    let data = message.as_bytes();
    if key.len() as u64 > MAX_KEY_LEN || data.len() as u64 > MAX_SHA256_MESSAGE_LEN {
        return Err(ConnectorError::RequestEncodingFailed);
    }
    let tag = sign_sha256(key, data);
    Ok(codec::hex_encode(tag.as_slice()))
}

/// Signs a message with SHA-512, in hexadecimal.
pub fn sign_message_sha512(secret: &str, message: &str) -> (r: Result<String, ConnectorError>)
    ensures
        r is Ok <==> signable_sha512(secret@, message@),
        r matches Ok(signature) ==> signature@ == signature_sha512(secret@, message@)
            && signature@.len() == 128,
        r matches Err(e) ==> e is RequestEncodingFailed,
{
    let key = secret.as_bytes();
    let data = message.as_bytes();
    if key.len() as u64 > MAX_KEY_LEN || data.len() as u64 > MAX_SHA512_MESSAGE_LEN {
        return Err(ConnectorError::RequestEncodingFailed);
    }
    let tag = sign_sha512(key, data);
    Ok(codec::hex_encode(tag.as_slice()))
}

} // verus!
