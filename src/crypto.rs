use vstd::prelude::*;

verus! {

/// Bytes beyond which SHA-256 cannot hash an input (its length is counted
/// in a 64-bit number of bits), less room for the block that HMAC adds.
pub const HMAC_INPUT_LIMIT: u64 = 0x1fff_ffff_ffff_ff00;

/// The HMAC-SHA256 tag of `msg` under `key`.
pub uninterp spec fn hmac_sha256_of(key: Seq<u8>, msg: Seq<u8>) -> Seq<u8>;

/// The lower-case hex digit for `d < 16`.
pub open spec fn hex_digit(d: u8) -> char {
    seq!['0', '1', '2', '3', '4', '5', '6', '7', '8', '9', 'a', 'b', 'c', 'd', 'e', 'f'][d as int]
}

/// Each byte as two lower-case hex digits, high half first.
pub open spec fn hex_lower(b: Seq<u8>) -> Seq<char> {
    Seq::new(
        2 * b.len(),
        |i: int|
            if i % 2 == 0 {
                hex_digit(b[i / 2] / 16)
            } else {
                hex_digit(b[i / 2] % 16)
            },
    )
}

/// Every character is one of `0-9` and `a-f`.
pub open spec fn is_lower_hex(s: Seq<char>) -> bool {
    forall|i: int| 0 <= i < s.len() ==> ('0' <= #[trigger] s[i] <= '9' || 'a' <= s[i] <= 'f')
}

pub proof fn lemma_hex_lower_shape(b: Seq<u8>)
    ensures
        hex_lower(b).len() == 2 * b.len(),
        is_lower_hex(hex_lower(b)),
{
    let h = hex_lower(b);
    assert forall|i: int| 0 <= i < h.len() implies ('0' <= #[trigger] h[i] <= '9' || 'a' <= h[i]
        <= 'f') by {
        let d: u8 = if i % 2 == 0 {
            b[i / 2] / 16
        } else {
            b[i / 2] % 16
        };
        assert(h[i] == hex_digit(d));
        assert(d < 16);
    }
}

#[verifier::external_type_specification]
#[verifier::external_body]
pub struct ExJsonValue(serde_json::Value);

#[verifier::external_type_specification]
#[verifier::external_body]
pub struct ExJsonError(serde_json::Error);

/// Relies on ring::hmac::sign under ring::hmac::HMAC_SHA256: the tag is the
/// HMAC-SHA256 of `msg` keyed by `key`, as long as SHA-256's output (32 bytes).
/// ring panics only where an input is too long for SHA-256 to count its bits.
#[verifier::external_body]
pub(crate) fn hmac_sha256(key: &[u8], msg: &[u8]) -> (r: Vec<u8>)
    requires
        key@.len() < HMAC_INPUT_LIMIT,
        msg@.len() < HMAC_INPUT_LIMIT,
    ensures
        r@ == hmac_sha256_of(key@, msg@),
        r@.len() == 32,
{
    let k = ring::hmac::Key::new(ring::hmac::HMAC_SHA256, key);
    ring::hmac::sign(&k, msg).as_ref().to_vec()
}

/// Relies on hex::encode: two lower-case hex digits for each byte, high half
/// first.
#[verifier::external_body]
pub(crate) fn hex_encode(b: &[u8]) -> (r: String)
    ensures
        r@ == hex_lower(b@),
{
    hex::encode(b)
}

/// Relies on serde_json::to_string: the JSON text of a value, or the error it
/// met on the way.
#[verifier::external_body]
pub(crate) fn json_text(v: &serde_json::Value) -> (r: Result<String, serde_json::Error>) {
    serde_json::to_string(v)
}

} // verus!
