use vstd::prelude::*;
use crate::error::MintError;

verus! {

/// Length in bytes of an ed25519 public key.
pub const PUBLIC_KEY_LEN: usize = 32;
/// Length in bytes of an ed25519 signature.
pub const SIGNATURE_LEN: usize = 64;

#[verifier::external_type_specification]
#[verifier::external_body]
pub struct ExFromHexError(hex::FromHexError);

pub open spec fn is_hex_digit(c: char) -> bool {
    ('0' <= c && c <= '9') || ('a' <= c && c <= 'f') || ('A' <= c && c <= 'F')
}

pub open spec fn hex_digit_value(c: char) -> int {
    if '0' <= c && c <= '9' {
        c as int - '0' as int
    } else if 'a' <= c && c <= 'f' {
        c as int - 'a' as int + 10
    } else {
        c as int - 'A' as int + 10
    }
}

/// Text that decodes as hex: an even number of hex digits, either case.
pub open spec fn is_hex_text(s: Seq<char>) -> bool {
    s.len() % 2 == 0 && forall|i: int| 0 <= i < s.len() ==> #[trigger] is_hex_digit(s[i])
}

/// The bytes that hex text stands for, two digits per byte, high digit first.
pub open spec fn hex_bytes(s: Seq<char>) -> Seq<u8> {
    Seq::new(
        (s.len() / 2) as nat,
        |i: int| (hex_digit_value(s[2 * i]) * 16 + hex_digit_value(s[2 * i + 1])) as u8,
    )
}

/// Relies on hex::decode: it accepts exactly an even-length run of hex digits
/// (upper or lower case) and yields one byte per pair, high nibble first.
#[verifier::external_body]
fn hex_decode(s: &str) -> (r: Result<Vec<u8>, hex::FromHexError>)
    ensures
        r.is_ok() == is_hex_text(s@),
        r.is_ok() ==> r.unwrap()@ == hex_bytes(s@),
{
    hex::decode(s)
}

/// Whether `signature` is a valid ed25519 signature of the UTF-8 bytes of
/// `message` under `public_key`.
pub uninterp spec fn ed25519_valid(signature: Seq<u8>, message: Seq<char>, public_key: Seq<u8>) -> bool;

/// Relies on near_sdk::env::ed25519_verify (outside the runtime it decompresses the
/// key and runs ed25519-dalek's verification): its answer depends on the three byte
/// strings alone.
#[verifier::external_body]
fn ed25519_verify(signature: &[u8], message: &str, public_key: &[u8]) -> (r: bool)
    requires
        signature@.len() == SIGNATURE_LEN,
        public_key@.len() == PUBLIC_KEY_LEN,
    ensures
        r == ed25519_valid(signature@, message@, public_key@),
{
    let signature: &[u8; 64] = signature.try_into().unwrap();
    let public_key: &[u8; 32] = public_key.try_into().unwrap();
    near_sdk::env::ed25519_verify(signature, message.as_bytes(), public_key)
}

/// Checks a signature over `message` with a decoded public key.
pub fn verification(public_key: &Vec<u8>, message: &String, signature: &Vec<u8>) -> (r: bool)
    requires
        public_key@.len() == PUBLIC_KEY_LEN,
        signature@.len() == SIGNATURE_LEN,
    ensures
        r == ed25519_valid(signature@, message@, public_key@),
{
    ed25519_verify(signature.as_slice(), message.as_str(), public_key.as_slice())
}

/// Decodes hex text that must stand for exactly `len` bytes.
fn decode_exact(text: &String, len: usize, not_hex: MintError, wrong_len: MintError) -> (r: Result<
    Vec<u8>,
    MintError,
>)
    ensures
        match r {
            Ok(b) => is_hex_text(text@) && hex_bytes(text@).len() == len && b@ == hex_bytes(text@),
            Err(e) => (!is_hex_text(text@) && e == not_hex) || (is_hex_text(text@)
                && hex_bytes(text@).len() != len && e == wrong_len),
        },
{
    match hex_decode(text.as_str()) {
        Ok(bytes) => {
            if bytes.len() == len {
                Ok(bytes)
            } else {
                Err(wrong_len)
            }
        },
        Err(_) => Err(not_hex),
    }
}

/// Decodes the hex text of the signer's public key into its 32 bytes.
pub fn decode_public_key(text: &String) -> (r: Result<Vec<u8>, MintError>)
    ensures
        !is_hex_text(text@) ==> r == Err::<Vec<u8>, MintError>(MintError::PublicKeyNotHex),
        is_hex_text(text@) && hex_bytes(text@).len() != PUBLIC_KEY_LEN ==> r == Err::<
            Vec<u8>,
            MintError,
        >(MintError::PublicKeyLength),
        is_hex_text(text@) && hex_bytes(text@).len() == PUBLIC_KEY_LEN ==> r.is_ok() && r.unwrap()@
            == hex_bytes(text@),
{
    decode_exact(text, PUBLIC_KEY_LEN, MintError::PublicKeyNotHex, MintError::PublicKeyLength)
}

/// Decodes the hex text of a request signature into its 64 bytes.
pub fn decode_signature(text: &String) -> (r: Result<Vec<u8>, MintError>)
    ensures
        !is_hex_text(text@) ==> r == Err::<Vec<u8>, MintError>(MintError::SignatureNotHex),
        is_hex_text(text@) && hex_bytes(text@).len() != SIGNATURE_LEN ==> r == Err::<
            Vec<u8>,
            MintError,
        >(MintError::SignatureLength),
        is_hex_text(text@) && hex_bytes(text@).len() == SIGNATURE_LEN ==> r.is_ok() && r.unwrap()@
            == hex_bytes(text@),
{
    decode_exact(text, SIGNATURE_LEN, MintError::SignatureNotHex, MintError::SignatureLength)
}

} // verus!
