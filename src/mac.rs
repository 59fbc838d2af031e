//! HMAC-SHA256 over a key and a message, with the tag written in standard
//! base64.
use vstd::prelude::*;
use vstd::utf8::encode_utf8;

verus! {

/// The HMAC-SHA256 tag of `message` under `key`.
pub uninterp spec fn hmac_sha256_of(key: Seq<u8>, message: Seq<u8>) -> Seq<u8>;

/// The character for a six-bit value in the standard base64 alphabet
/// (`A`-`Z`, `a`-`z`, `0`-`9`, `+`, `/`).
pub open spec fn base64_digit(v: int) -> char {
    if v < 26 {
        (65 + v) as char
    } else if v < 52 {
        (97 + (v - 26)) as char
    } else if v < 62 {
        (48 + (v - 52)) as char
    } else if v == 62 {
        '+'
    } else {
        '/'
    }
}

/// Standard base64 with `=` padding: each group of three bytes becomes four
/// characters; a final group of one or two bytes is padded to four.
pub open spec fn base64_std(b: Seq<u8>) -> Seq<char>
    decreases b.len(),
{
    let x = if b.len() > 0 { b[0] as int } else { 0 };
    let y = if b.len() > 1 { b[1] as int } else { 0 };
    let z = if b.len() > 2 { b[2] as int } else { 0 };
    if b.len() == 0 {
        seq![]
    } else if b.len() == 1 {
        seq![base64_digit(x / 4), base64_digit((x % 4) * 16), '=', '=']
    } else if b.len() == 2 {
        seq![base64_digit(x / 4), base64_digit((x % 4) * 16 + y / 16), base64_digit((y % 16) * 4), '=']
    } else {
        seq![
            base64_digit(x / 4),
            base64_digit((x % 4) * 16 + y / 16),
            base64_digit((y % 16) * 4 + z / 64),
            base64_digit(z % 64),
        ] + base64_std(b.subrange(3, b.len() as int))
    }
}

/// The tag over the UTF-8 bytes of `key` and `message`.
pub open spec fn mac_tag(key: Seq<char>, message: Seq<char>) -> Seq<u8> {
    hmac_sha256_of(encode_utf8(key), encode_utf8(message))
}

/// The text that `hmac_sha256_base64` returns for `key` and `message`.
pub open spec fn mac_text(key: Seq<char>, message: Seq<char>) -> Seq<char> {
    base64_std(mac_tag(key, message))
}

#[verifier::external_type_specification]
#[verifier::external_body]
pub struct ExInvalidLength(hmac::digest::InvalidLength);

/// Relies on hmac's `Hmac<Sha256>` through `Mac::new_from_slice`,
/// `Mac::update` and `Mac::finalize`: key setup accepts a key of any length
/// (short keys are zero-padded, long ones hashed first, with no error path),
/// and the tag is SHA-256's 32-byte output.
#[verifier::external_body]
fn hmac_sha256_tag(key: &[u8], message: &[u8]) -> (r: Result<Vec<u8>, hmac::digest::InvalidLength>)
    ensures
        r is Ok,
        r matches Ok(tag) ==> tag@ == hmac_sha256_of(key@, message@) && tag@.len() == 32,
{
    let mut mac = <hmac::Hmac<sha2::Sha256> as hmac::Mac>::new_from_slice(key)?;
    hmac::Mac::update(&mut mac, message);
    Ok(hmac::Mac::finalize(mac).into_bytes().to_vec())
}

/// Relies on base64's `Engine::encode` with the `STANDARD` engine: standard
/// alphabet, `=` padding. It panics only where the encoded length overflows
/// `usize`.
#[verifier::external_body]
fn encode_base64(bytes: &[u8]) -> (r: String)
    requires
        4 * ((bytes@.len() + 2) / 3) <= usize::MAX,
    ensures
        r@ == base64_std(bytes@),
{
    base64::Engine::encode(&base64::engine::general_purpose::STANDARD, bytes)
}

/// Why a tag could not be computed.
pub enum MacError {
    /// The hash context refused the key.
    InvalidKey,
}

impl MacError {
    /// A human-readable description of the error.
    pub fn message(&self) -> (r: String)
        ensures
            r@.len() > 0,
    {
        match self {
            MacError::InvalidKey => {
                proof {
                    reveal_strlit("invalid key length");
                }
                String::from_str("invalid key length")
            },
        }
    }
}

/// Computes HMAC-SHA256 of the UTF-8 bytes of `data` under the UTF-8 bytes
/// of `key`, and returns the 32-byte tag in standard base64.
pub fn hmac_sha256_base64(key: &str, data: &str) -> (r: Result<String, MacError>)
    ensures
        r is Ok,
        r matches Ok(s) ==> s@ == mac_text(key@, data@) && mac_tag(key@, data@).len() == 32
            && s@.len() == 44,
{
    let tag = match hmac_sha256_tag(key.as_bytes(), data.as_bytes()) {
        Ok(t) => t,
        Err(_) => {
            return Err(MacError::InvalidKey);
        },
    };
    proof {
        lemma_base64_len(tag@);
    }
    Ok(encode_base64(tag.as_slice()))
}

/// Standard base64 of `n` bytes has `4 * ceil(n / 3)` characters.
pub proof fn lemma_base64_len(b: Seq<u8>)
    ensures
        base64_std(b).len() == 4 * ((b.len() + 2) / 3),
    decreases b.len(),
{
    if b.len() >= 3 {
        lemma_base64_len(b.subrange(3, b.len() as int));
    }
}

/// The tag and its encoding are functions of the key and the message: equal
/// inputs give equal tags and equal texts.
pub proof fn lemma_mac_deterministic(k1: Seq<char>, m1: Seq<char>, k2: Seq<char>, m2: Seq<char>)
    requires
        k1 == k2,
        m1 == m2,
    ensures
        mac_text(k1, m1) == mac_text(k2, m2),
        mac_tag(k1, m1) == mac_tag(k2, m2),
{
}

} // verus!
