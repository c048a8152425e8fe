use vstd::prelude::*;
use vstd::string::*;
use vstd::utf8::encode_utf8;

use crate::canonical::{
    http_message,
    http_payload,
    lemma_http_message_fits,
    lemma_ws_message_fits,
    sign_message,
    signature_of,
    ws_message,
    ws_payload,
    MAX_FIELD_BYTES,
};
use crate::crypto::{is_lower_hex, json_text, HMAC_INPUT_LIMIT};
use crate::payload::{SignError, SignPayload, Signature};

verus! {

/// What an API key may be used for.
#[derive(Debug, Hash, Eq, PartialEq, Copy, Clone)]
pub enum Capability {
    Trade,
    Withdraw,
}

/// The HTTP methods that the exchange's REST API is called with.
#[derive(Debug, Eq, PartialEq, Copy, Clone)]
pub enum HTTPVerb {
    GET,
    POST,
    DELETE,
}

impl HTTPVerb {
    /// The method's name, upper case.
    pub open spec fn text(self) -> Seq<char> {
        match self {
            HTTPVerb::GET => seq!['G', 'E', 'T'],
            HTTPVerb::POST => seq!['P', 'O', 'S', 'T'],
            HTTPVerb::DELETE => seq!['D', 'E', 'L', 'E', 'T', 'E'],
        }
    }

    pub fn as_str(&self) -> (r: &'static str)
        ensures
            r@ == self.text(),
    {
        proof {
            reveal_strlit("GET");
            reveal_strlit("POST");
            reveal_strlit("DELETE");
        }
        match *self {
            HTTPVerb::GET => "GET",
            HTTPVerb::POST => "POST",
            HTTPVerb::DELETE => "DELETE",
        }
    }
}

/// The abstract value of a credential.
pub ghost struct AuthView {
    /// The public key identifier.
    pub key: Seq<char>,
    /// The signing secret.
    pub secret: Seq<char>,
    /// The addresses that may use the key; `None` lets every address in.
    pub allowlist: Option<Set<Seq<char>>>,
}

/// An API key: its public identifier, its signing secret and an optional IP
/// allowlist. The secret never leaves this type; only signatures made with it
/// do.
pub struct APIAuth {
    key: String,
    secret: String,
    ip_whitelist: Option<Vec<String>>,
}

impl View for APIAuth {
    type V = AuthView;

    closed spec fn view(&self) -> AuthView {
        AuthView {
            key: self.key@,
            secret: self.secret@,
            allowlist: allowlist_of(self.ip_whitelist),
        }
    }
}

/// The character sequences of a list of strings, in order.
pub open spec fn string_views(v: Seq<String>) -> Seq<Seq<char>> {
    v.map_values(|s: String| s@)
}

/// The allowlist that an optional list of addresses stands for.
pub open spec fn allowlist_of(list: Option<Vec<String>>) -> Option<Set<Seq<char>>> {
    match list {
        Some(v) => Some(string_views(v@).to_set()),
        None => None,
    }
}

/// Whether `ip` may use a key with this allowlist: an absent list lets every
/// address in, a present one only the addresses it holds, compared exactly.
pub open spec fn allows(allowlist: Option<Set<Seq<char>>>, ip: Seq<char>) -> bool {
    match allowlist {
        Some(s) => s.contains(ip),
        None => true,
    }
}

impl APIAuth {
    #[verifier::type_invariant]
    spec fn secret_fits(&self) -> bool {
        encode_utf8(self.secret@).len() < HMAC_INPUT_LIMIT
    }

    /// A credential with no validation of its parts. The secret must be
    /// short enough for SHA-256 to hash, as every real secret is.
    pub fn new(key: &str, secret: &str, ip_whitelist: Option<Vec<String>>) -> (r: APIAuth)
        requires
            encode_utf8(secret@).len() < HMAC_INPUT_LIMIT,
        ensures
            r@.key == key@,
            r@.secret == secret@,
            r@.allowlist == allowlist_of(ip_whitelist),
    {
        APIAuth { key: String::from_str(key), secret: String::from_str(secret), ip_whitelist }
    }

    /// Whether requests from `ip` are allowed: always without an allowlist,
    /// else exactly when `ip` is one of its entries, character for character.
    pub fn is_whitelisted(&self, ip: &str) -> (r: bool)
        ensures
            r == allows(self@.allowlist, ip@),
    {
        match self.ip_whitelist.as_ref() {
            None => true,
            Some(list) => {
                let target = String::from_str(ip);
                let ghost views = string_views(list@);
                let mut i: usize = 0;
                while i < list.len()
                    invariant
                        i <= list@.len(),
                        target@ == ip@,
                        views == string_views(list@),
                        self@.allowlist == Some(views.to_set()),
                        forall|j: int| 0 <= j < i ==> list@[j]@ != ip@,
                    decreases list@.len() - i,
                {
                    if list[i].eq(&target) {
                        proof {
                            assert(views[i as int] == ip@);
                            assert(views.to_set().contains(ip@));
                        }
                        return true;
                    }
                    i = i + 1;
                }
                proof {
                    if views.to_set().contains(ip@) {
                        let k = views.index_of(ip@);
                        assert(views[k] == ip@);
                    }
                }
                false
            },
        }
    }

    /// The public key identifier, as given; never the secret.
    pub fn get_key(&self) -> (r: &str)
        ensures
            r@ == self@.key,
    {
        self.key.as_str()
    }

    /// The signature of an HTTP request whose body is given as its JSON text
    /// (empty for none).
    pub fn sign_http(&self, verb: HTTPVerb, path: &str, body: &str, timestamp: i64) -> (r:
        Signature)
        requires
            encode_utf8(path@).len() + encode_utf8(body@).len() <= MAX_FIELD_BYTES,
        ensures
            r@ == signature_of(self@.secret, http_message(verb, path@, body@, timestamp as int)),
            r@.len() == 64,
            is_lower_hex(r@),
    {
        proof {
            use_type_invariant(self);
            lemma_http_message_fits(verb, path@, body@, timestamp);
        }
        let message = http_payload(verb, path, body, timestamp);
        Signature(sign_message(self.secret.as_str(), message.as_str()))
    }

    /// The signature of a WebSocket connection.
    pub fn sign_ws(&self, timestamp: i64) -> (r: Signature)
        ensures
            r@ == signature_of(self@.secret, ws_message(timestamp as int)),
            r@.len() == 64,
            is_lower_hex(r@),
    {
        proof {
            use_type_invariant(self);
            lemma_ws_message_fits(timestamp);
        }
        let message = ws_payload(timestamp);
        Signature(sign_message(self.secret.as_str(), message.as_str()))
    }

    /// Signs a payload. A WebSocket payload is always signed. An HTTP payload
    /// is signed over its JSON body text; it fails with `Serialization` only
    /// where the body cannot be written as JSON, and with `TooLong` exactly
    /// when the path and the body text exceed `MAX_FIELD_BYTES`.
    pub fn sign(&self, payload: SignPayload) -> (r: Result<Signature, SignError>)
        ensures
            match payload {
                SignPayload::Websocket { timestamp } => {
                    &&& r is Ok
                    &&& r->Ok_0@ == signature_of(self@.secret, ws_message(timestamp as int))
                },
                SignPayload::HTTP { verb, method, body: None, timestamp } => {
                    if encode_utf8(method@).len() <= MAX_FIELD_BYTES {
                        &&& r is Ok
                        &&& r->Ok_0@ == signature_of(
                            self@.secret,
                            http_message(verb, method@, seq![], timestamp as int),
                        )
                    } else {
                        r == Err::<Signature, SignError>(SignError::TooLong)
                    }
                },
                SignPayload::HTTP { verb, method, body: Some(_), timestamp } => match r {
                    Ok(s) => exists|j: Seq<char>|
                        encode_utf8(method@).len() + encode_utf8(j).len() <= MAX_FIELD_BYTES
                            && s@ == signature_of(
                            self@.secret,
                            http_message(verb, method@, j, timestamp as int),
                        ),
                    Err(e) => e == SignError::Serialization || e == SignError::TooLong,
                },
            },
            r is Ok ==> r->Ok_0@.len() == 64 && is_lower_hex(r->Ok_0@),
    {
        match payload {
            SignPayload::Websocket { timestamp } => Ok(self.sign_ws(timestamp)),
            SignPayload::HTTP { verb, method, body, timestamp } => {
                let text = match body {
                    Some(value) => match json_text(&value) {
                        Ok(t) => t,
                        Err(_) => {
                            return Err(SignError::Serialization);
                        },
                    },
                    None => String::new(),
                };
                let path_len = method.as_str().as_bytes().len();
                let body_len = text.as_str().as_bytes().len();
                if path_len as u64 > MAX_FIELD_BYTES || body_len as u64 > MAX_FIELD_BYTES
                    - path_len as u64 {
                    return Err(SignError::TooLong);
                }
                Ok(self.sign_http(verb, method.as_str(), text.as_str(), timestamp))
            },
        }
    }
}

/// A credential tagged with the permission class of its key. The tag is
/// informative: the exchange enforces what a key may do.
pub enum APIType {
    ReadOnly(APIAuth),
    Withdraw(APIAuth),
    Trade(APIAuth),
    ALL(APIAuth),
}

impl APIType {
    /// The credential held, whatever the tag.
    pub open spec fn auth(&self) -> APIAuth {
        match self {
            APIType::ReadOnly(a) => *a,
            APIType::Withdraw(a) => *a,
            APIType::Trade(a) => *a,
            APIType::ALL(a) => *a,
        }
    }

    /// The credential held, whatever its permission class.
    pub fn get_auth(&self) -> (r: &APIAuth)
        ensures
            *r == self.auth(),
    {
        match self {
            APIType::ReadOnly(auth) => auth,
            APIType::Withdraw(auth) => auth,
            APIType::Trade(auth) => auth,
            APIType::ALL(auth) => auth,
        }
    }
}

/// The credentials of the master account, through which sub-accounts are
/// managed.
pub struct MasterAPI(APIType);

impl MasterAPI {
    /// The scoped credential held.
    pub closed spec fn api_type(&self) -> APIType {
        self.0
    }

    pub fn new(auth: APIType) -> (r: MasterAPI)
        ensures
            r.api_type() == auth,
    {
        MasterAPI(auth)
    }
}

impl core::ops::Deref for MasterAPI {
    type Target = APIAuth;

    fn deref(&self) -> (r: &APIAuth)
        ensures
            *r == self.api_type().auth(),
    {
        self.0.get_auth()
    }
}

} // verus!
