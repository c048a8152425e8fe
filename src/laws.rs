use vstd::prelude::*;
use vstd::utf8::{encode_utf8, encode_utf8_decode_utf8};

use crate::auth::{APIAuth, HTTPVerb};
use crate::canonical::{http_message, signature_of, ws_message};
use crate::decimal::lemma_decimal_injective;

verus! {

/// Two credentials with the same secret give an HTTP request the same
/// signature whenever its method, path, body text and timestamp are the same:
/// signing depends on nothing else.
pub proof fn lemma_http_signature_deterministic(
    a: APIAuth,
    b: APIAuth,
    verb: HTTPVerb,
    path: Seq<char>,
    body: Seq<char>,
    timestamp: i64,
)
    requires
        a@.secret == b@.secret,
    ensures
        signature_of(a@.secret, http_message(verb, path, body, timestamp as int)) == signature_of(
            b@.secret,
            http_message(verb, path, body, timestamp as int),
        ),
{
}

/// A WebSocket signature depends on the timestamp and the secret alone: two
/// credentials with equal secrets sign equal timestamps alike.
pub proof fn lemma_ws_signature_depends_on_timestamp(a: APIAuth, b: APIAuth, t1: i64, t2: i64)
    requires
        a@.secret == b@.secret,
        t1 == t2,
    ensures
        signature_of(a@.secret, ws_message(t1 as int)) == signature_of(
            b@.secret,
            ws_message(t2 as int),
        ),
{
}

proof fn lemma_infix_differs(pre: Seq<char>, x: Seq<char>, y: Seq<char>, post: Seq<char>)
    requires
        x != y,
    ensures
        pre + x + post != pre + y + post,
{
    if x.len() == y.len() && pre + x + post == pre + y + post {
        let s = pre + x + post;
        assert(x =~= s.subrange(pre.len() as int, (pre.len() + x.len()) as int));
        assert(y =~= (pre + y + post).subrange(pre.len() as int, (pre.len() + y.len()) as int));
    } else if x.len() != y.len() {
        assert((pre + x + post).len() != (pre + y + post).len());
    }
}

/// Changing any one field of an HTTP request, the secret held, changes the
/// bytes that are signed: method, path, body text or timestamp.
pub proof fn lemma_http_message_sensitive(
    verb1: HTTPVerb,
    path1: Seq<char>,
    body1: Seq<char>,
    ts1: i64,
    verb2: HTTPVerb,
    path2: Seq<char>,
    body2: Seq<char>,
    ts2: i64,
)
    requires
        (verb1 != verb2 && path1 == path2 && body1 == body2 && ts1 == ts2) || (verb1 == verb2
            && path1 != path2 && body1 == body2 && ts1 == ts2) || (verb1 == verb2 && path1
            == path2 && body1 != body2 && ts1 == ts2) || (verb1 == verb2 && path1 == path2 && body1
            == body2 && ts1 != ts2),
    ensures
        http_message(verb1, path1, body1, ts1 as int) != http_message(
            verb2,
            path2,
            body2,
            ts2 as int,
        ),
        encode_utf8(http_message(verb1, path1, body1, ts1 as int)) != encode_utf8(
            http_message(verb2, path2, body2, ts2 as int),
        ),
{
    let m1 = http_message(verb1, path1, body1, ts1 as int);
    let m2 = http_message(verb2, path2, body2, ts2 as int);
    let d1 = crate::decimal::decimal(ts1 as int);
    let d2 = crate::decimal::decimal(ts2 as int);
    let e = Seq::<char>::empty();
    if verb1 != verb2 {
        assert(verb1.text().len() != verb2.text().len());
        let post = path1 + body1 + d1;
        assert(m1 =~= e + verb1.text() + post);
        assert(m2 =~= e + verb2.text() + post);
        lemma_infix_differs(e, verb1.text(), verb2.text(), post);
    } else if path1 != path2 {
        let post = body1 + d1;
        assert(m1 =~= verb1.text() + path1 + post);
        assert(m2 =~= verb1.text() + path2 + post);
        lemma_infix_differs(verb1.text(), path1, path2, post);
    } else if body1 != body2 {
        let pre = verb1.text() + path1;
        assert(m1 =~= pre + body1 + d1);
        assert(m2 =~= pre + body2 + d1);
        lemma_infix_differs(pre, body1, body2, d1);
    } else {
        if d1 == d2 {
            lemma_decimal_injective(ts1 as int, ts2 as int);
        }
        let pre = verb1.text() + path1 + body1;
        assert(m1 =~= pre + d1 + e);
        assert(m2 =~= pre + d2 + e);
        lemma_infix_differs(pre, d1, d2, e);
    }
    encode_utf8_decode_utf8(m1);
    encode_utf8_decode_utf8(m2);
}

} // verus!
