//! Authentication for a cryptocurrency exchange's sub-account API: API
//! credentials scoped by permission class, an optional IP allowlist, and the
//! HMAC-SHA256 request signatures that the exchange checks.

pub mod auth;
pub mod canonical;
pub mod crypto;
pub mod decimal;
pub mod endpoints;
pub mod laws;
pub mod payload;

pub use auth::{APIAuth, APIType, Capability, HTTPVerb, MasterAPI};
pub use canonical::{http_payload, sign_message, ws_payload, MAX_FIELD_BYTES};
pub use decimal::decimal_text;
pub use endpoints::{sub_account_api_list_path, sub_account_list_path, AuthHeaders};
pub use payload::{SignError, SignPayload, Signature};
