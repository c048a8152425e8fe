use vstd::prelude::*;

use crate::auth::HTTPVerb;

verus! {

/// What is signed for one request.
pub enum SignPayload {
    /// A REST call: `method` is the path with its query string.
    HTTP { verb: HTTPVerb, method: String, body: Option<serde_json::Value>, timestamp: i64 },
    /// A WebSocket connection.
    Websocket { timestamp: i64 },
}

/// A request signature: lower-case hex.
pub struct Signature(pub String);

impl View for Signature {
    type V = Seq<char>;

    open spec fn view(&self) -> Seq<char> {
        self.0@
    }
}

/// Why a payload could not be signed.
#[derive(Debug, Eq, PartialEq, Copy, Clone)]
pub enum SignError {
    /// The body could not be written as JSON.
    Serialization,
    /// The path and body together exceed `MAX_FIELD_BYTES`, more than
    /// SHA-256 can hash.
    TooLong,
}

} // verus!
