//! Shared Key request signing for a cloud message-queue "put message" call:
//! the request timestamp, the canonical strings, the string to sign, the
//! HMAC-SHA256 authorization token and the XML message envelope.
mod canonical;
mod message;
mod request;
mod signature;
mod signer;
mod text;
mod timestamp;

pub use canonical::{canonical_headers, canonical_resource, headers_text, resource_text, X_MS_VERSION};
pub use message::{create_content_string, envelope_text};
pub use request::{
    body_length, build_request, is_request_for, prepare_request, request_token, QueueConfig,
    SignedRequest,
};
pub use signature::{
    construct_signature, content_length_field, lemma_content_length_field,
    lemma_string_to_sign_layout, signature_fields, string_to_sign, terminated,
};
pub use signer::{
    authorization_header, authorization_token, base64_decoded, base64_encoded, hmac_256,
    hmac_sha256, is_base64_symbol, lemma_sign_deterministic, sign, signature_of, token_text,
    SignError,
};
pub use text::{append_decimal, append_padded, decimal, digit_char, lemma_no_leading_zero, padded};
pub use timestamp::{
    current_timestamp, format_date_str, month_name, timestamp_text, weekday_name, year_text,
    LocalDateTime,
};
