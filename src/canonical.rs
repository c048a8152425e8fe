use vstd::prelude::*;
use vstd::string::*;
use vstd::utf8::{encode_utf8, is_ascii_chars, is_ascii_chars_encode_utf8};

use crate::auth::HTTPVerb;
use crate::crypto::{
    hex_encode,
    hex_lower,
    hmac_sha256,
    hmac_sha256_of,
    is_lower_hex,
    lemma_hex_lower_shape,
    HMAC_INPUT_LIMIT,
};
use crate::decimal::{decimal, decimal_text, lemma_decimal_ascii};

verus! {

/// How many bytes the path and the body of a signed HTTP request may take
/// together, so that the whole message stays within what SHA-256 can hash.
pub const MAX_FIELD_BYTES: u64 = 0x0800_0000_0000_0000;

/// The string signed for an HTTP request: the method, the path with its query,
/// the JSON body (empty when there is none) and the timestamp in decimal,
/// with nothing between them.
pub open spec fn http_message(verb: HTTPVerb, path: Seq<char>, body: Seq<char>, ts: int) -> Seq<
    char,
> {
    verb.text() + path + body + decimal(ts)
}

/// The string signed for a WebSocket connection: the timestamp in decimal.
pub open spec fn ws_message(ts: int) -> Seq<char> {
    decimal(ts)
}

/// The signature of `message` under `secret`: the lower-case hex form of the
/// HMAC-SHA256 of the message's UTF-8 bytes keyed by the secret's.
pub open spec fn signature_of(secret: Seq<char>, message: Seq<char>) -> Seq<char> {
    hex_lower(hmac_sha256_of(encode_utf8(secret), encode_utf8(message)))
}

pub proof fn lemma_utf8_concat(a: Seq<char>, b: Seq<char>)
    ensures
        encode_utf8(a + b) == encode_utf8(a) + encode_utf8(b),
    decreases a.len(),
{
    if a.len() == 0 {
        assert(a + b =~= b);
        assert(encode_utf8(a) =~= Seq::<u8>::empty());
        assert(encode_utf8(a) + encode_utf8(b) =~= encode_utf8(b));
    } else {
        assert((a + b).drop_first() =~= a.drop_first() + b);
        assert((a + b)[0] == a[0]);
        lemma_utf8_concat(a.drop_first(), b);
        let e = vstd::utf8::encode_scalar(a[0] as u32);
        assert(encode_utf8(a + b) =~= e + (encode_utf8(a.drop_first()) + encode_utf8(b)));
        assert(encode_utf8(a) =~= e + encode_utf8(a.drop_first()));
        assert(e + (encode_utf8(a.drop_first()) + encode_utf8(b)) =~= (e + encode_utf8(
            a.drop_first(),
        )) + encode_utf8(b));
    }
}

proof fn lemma_verb_ascii(verb: HTTPVerb)
    ensures
        is_ascii_chars(verb.text()),
        verb.text().len() <= 6,
{
}

/// The UTF-8 length of an HTTP message, field by field.
pub proof fn lemma_http_message_bytes(verb: HTTPVerb, path: Seq<char>, body: Seq<char>, ts: int)
    ensures
        encode_utf8(http_message(verb, path, body, ts)).len() == verb.text().len() + encode_utf8(
            path,
        ).len() + encode_utf8(body).len() + decimal(ts).len(),
{
    lemma_verb_ascii(verb);
    lemma_decimal_ascii(ts);
    is_ascii_chars_encode_utf8(verb.text());
    is_ascii_chars_encode_utf8(decimal(ts));
    lemma_utf8_concat(verb.text(), path);
    lemma_utf8_concat(verb.text() + path, body);
    lemma_utf8_concat(verb.text() + path + body, decimal(ts));
}

/// A message whose path and body fit [`MAX_FIELD_BYTES`] can be hashed.
pub proof fn lemma_http_message_fits(verb: HTTPVerb, path: Seq<char>, body: Seq<char>, ts: i64)
    requires
        encode_utf8(path).len() + encode_utf8(body).len() <= MAX_FIELD_BYTES,
    ensures
        encode_utf8(http_message(verb, path, body, ts as int)).len() < HMAC_INPUT_LIMIT,
{
    lemma_http_message_bytes(verb, path, body, ts as int);
    lemma_verb_ascii(verb);
    lemma_decimal_ascii(ts as int);
}

/// A timestamp's decimal form can be hashed.
pub proof fn lemma_ws_message_fits(ts: i64)
    ensures
        encode_utf8(ws_message(ts as int)).len() < HMAC_INPUT_LIMIT,
{
    lemma_decimal_ascii(ts as int);
    is_ascii_chars_encode_utf8(decimal(ts as int));
}

/// The string that an HTTP request's signature is computed over.
pub fn http_payload(verb: HTTPVerb, path: &str, body: &str, timestamp: i64) -> (r: String)
    ensures
        r@ == http_message(verb, path@, body@, timestamp as int),
{
    let mut s = String::from_str(verb.as_str());
    s.append(path);
    s.append(body);
    let t = decimal_text(timestamp);
    s.append(t.as_str());
    s
}

/// The string that a WebSocket connection's signature is computed over.
pub fn ws_payload(timestamp: i64) -> (r: String)
    ensures
        r@ == ws_message(timestamp as int),
{
    decimal_text(timestamp)
}

/// Signs `message` with `secret`: 64 lower-case hex digits.
pub fn sign_message(secret: &str, message: &str) -> (r: String)
    requires
        encode_utf8(secret@).len() < HMAC_INPUT_LIMIT,
        encode_utf8(message@).len() < HMAC_INPUT_LIMIT,
    ensures
        r@ == signature_of(secret@, message@),
        r@.len() == 64,
        is_lower_hex(r@),
{
    let tag = hmac_sha256(secret.as_bytes(), message.as_bytes());
    let r = hex_encode(tag.as_slice());
    proof {
        lemma_hex_lower_shape(tag@);
    }
    r
}

} // verus!
