use vstd::prelude::*;
use vstd::string::*;
use core::ops::Deref;
use vstd::utf8::encode_utf8;

use crate::auth::{APIAuth, HTTPVerb, MasterAPI};
use crate::canonical::{http_message, signature_of, MAX_FIELD_BYTES};
use crate::decimal::{decimal, decimal_text};
use crate::payload::{SignError, SignPayload};

verus! {

/// The view of an optional string.
pub open spec fn opt_view(o: Option<&str>) -> Option<Seq<char>> {
    match o {
        Some(s) => Some(s@),
        None => None,
    }
}

/// `prefix` followed by the value, or nothing where there is no value.
pub open spec fn opt_param(prefix: Seq<char>, value: Option<Seq<char>>) -> Seq<char> {
    match value {
        Some(v) => prefix + v,
        None => Seq::empty(),
    }
}

/// `true` or `false`, as Rust writes a `bool`.
pub open spec fn bool_text(b: bool) -> Seq<char> {
    if b {
        "true"@
    } else {
        "false"@
    }
}

/// The decimal form of an optional number.
pub open spec fn opt_decimal(n: Option<i32>) -> Option<Seq<char>> {
    match n {
        Some(v) => Some(decimal(v as int)),
        None => None,
    }
}

/// The filters of a sub-account listing, each as `&name=value`.
pub open spec fn sub_account_list_query(
    user: Option<Seq<char>>,
    frozen: Option<bool>,
    page: Option<i32>,
    limit: Option<i32>,
) -> Seq<char> {
    opt_param("&sub_user_name="@, user) + opt_param(
        "&is_frozen="@,
        match frozen {
            Some(b) => Some(bool_text(b)),
            None => None,
        },
    ) + opt_param("&page="@, opt_decimal(page)) + opt_param("&limit="@, opt_decimal(limit))
}

/// The path and query of a sub-account listing: the bare path where no
/// filter is given, else the path, `?` and the filters.
pub open spec fn sub_account_list_target(
    user: Option<Seq<char>>,
    frozen: Option<bool>,
    page: Option<i32>,
    limit: Option<i32>,
) -> Seq<char> {
    if user is None && frozen is None && page is None && limit is None {
        "/v2/account/subs"@
    } else {
        "/v2/account/subs"@ + "?"@ + sub_account_list_query(user, frozen, page, limit)
    }
}

/// The path and query of the listing of a sub-account's API keys.
pub open spec fn sub_account_api_list_target(user: Seq<char>, page: Option<i32>, limit: Option<i32>) -> Seq<
    char,
> {
    "/v2/account/subs/api"@ + "?sub_user_name="@ + user + opt_param("&page="@, opt_decimal(page))
        + opt_param("&limit="@, opt_decimal(limit))
}

fn append_param(s: &mut String, prefix: &str, value: Option<&str>)
    ensures
        final(s)@ == old(s)@ + opt_param(prefix@, opt_view(value)),
{
    if let Some(v) = value {
        s.append(prefix);
        s.append(v);
        proof {
            assert(final(s)@ =~= old(s)@ + opt_param(prefix@, opt_view(value)));
        }
    } else {
        proof {
            assert(final(s)@ =~= old(s)@ + opt_param(prefix@, opt_view(value)));
        }
    }
}

fn append_number(s: &mut String, prefix: &str, value: Option<i32>)
    ensures
        final(s)@ == old(s)@ + opt_param(prefix@, opt_decimal(value)),
{
    match value {
        Some(n) => {
            let t = decimal_text(n as i64);
            append_param(s, prefix, Some(t.as_str()));
        },
        None => append_param(s, prefix, None),
    }
}

/// The path and query that list the sub-accounts, with the filters given.
pub fn sub_account_list_path(
    user: Option<&str>,
    frozen: Option<bool>,
    page: Option<i32>,
    limit: Option<i32>,
) -> (r: String)
    ensures
        r@ == sub_account_list_target(opt_view(user), frozen, page, limit),
{
    let mut query = String::new();
    append_param(&mut query, "&sub_user_name=", user);
    match frozen {
        Some(true) => append_param(&mut query, "&is_frozen=", Some("true")),
        Some(false) => append_param(&mut query, "&is_frozen=", Some("false")),
        None => append_param(&mut query, "&is_frozen=", None),
    }
    append_number(&mut query, "&page=", page);
    append_number(&mut query, "&limit=", limit);
    let mut target = String::from_str("/v2/account/subs");
    if user.is_some() || frozen.is_some() || page.is_some() || limit.is_some() {
        target.append("?");
        target.append(query.as_str());
    }
    proof {
        assert(query@ =~= sub_account_list_query(opt_view(user), frozen, page, limit));
        assert(target@ =~= sub_account_list_target(opt_view(user), frozen, page, limit));
    }
    target
}

/// The path and query that list a sub-account's API keys.
pub fn sub_account_api_list_path(user: &str, page: Option<i32>, limit: Option<i32>) -> (r: String)
    ensures
        r@ == sub_account_api_list_target(user@, page, limit),
{
    let mut target = String::from_str("/v2/account/subs/api");
    target.append("?sub_user_name=");
    target.append(user);
    append_number(&mut target, "&page=", page);
    append_number(&mut target, "&limit=", limit);
    target
}

/// The three fields that authenticate a REST request: the key identifier,
/// the signature, and the timestamp that was signed.
pub struct AuthHeaders {
    pub key: String,
    pub sign: String,
    pub timestamp: i64,
}

impl MasterAPI {
    /// Signs a request for `path` (with its query, as it will be sent) at
    /// `timestamp`, and returns the fields that carry the signature. The
    /// timestamp returned is the one signed.
    pub fn auth_headers(
        &self,
        verb: HTTPVerb,
        path: String,
        body: Option<serde_json::Value>,
        timestamp: i64,
    ) -> (r: Result<AuthHeaders, SignError>)
        ensures
            match r {
                Ok(h) => {
                    &&& h.key@ == self.api_type().auth()@.key
                    &&& h.timestamp == timestamp
                    &&& exists|j: Seq<char>|
                        {
                            &&& encode_utf8(path@).len() + encode_utf8(j).len() <= MAX_FIELD_BYTES
                            &&& h.sign@ == signature_of(
                                self.api_type().auth()@.secret,
                                http_message(verb, path@, j, timestamp as int),
                            )
                            &&& body is None ==> j == Seq::<char>::empty()
                        }
                },
                Err(e) => e == SignError::TooLong || (body is Some && e == SignError::Serialization),
            },
            body is None ==> (r is Ok <==> encode_utf8(path@).len() <= MAX_FIELD_BYTES),
    {
        let auth: &APIAuth = self.deref();
        let ghost no_body = body is None;
        let ghost p = path@;
        let signed = auth.sign(SignPayload::HTTP { verb, method: path, body, timestamp });
        match signed {
            Ok(sig) => {
                proof {
                    if no_body {
                        let j = Seq::<char>::empty();
                        assert(encode_utf8(j) =~= Seq::<u8>::empty());
                        assert(sig@ == signature_of(auth@.secret, http_message(verb, p, j, timestamp as int)));
                    }
                }
                Ok(AuthHeaders { key: String::from_str(auth.get_key()), sign: sig.0, timestamp })
            },
            Err(e) => Err(e),
        }
    }
}

} // verus!
