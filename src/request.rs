//! Everything a put-message request carries, computed from the queue's
//! configuration, the message and the timestamp.
use vstd::prelude::*;
use vstd::utf8::encode_utf8;
use crate::message::{create_content_string, envelope_text};
use crate::signature::{construct_signature, string_to_sign};
use crate::signer::{authorization_token, sign, SignError};
use crate::timestamp::{current_timestamp, timestamp_text, LocalDateTime};

verus! {

/// The queue that messages are put on, and the credentials that sign them.
pub struct QueueConfig {
    /// The storage account's name.
    pub account_name: String,
    /// The account's shared key, in base64.
    pub account_key: String,
    /// The queue's name.
    pub queue_name: String,
    /// The URL that messages are posted to.
    pub queue_url: String,
}

/// The parts of a signed put-message request: post `body` to `url` with the
/// headers `x-ms-date: {date}`, `x-ms-version`, `Authorization:
/// {authorization}` and `Content-Length: {content_length}`.
pub struct SignedRequest {
    pub url: String,
    pub date: String,
    pub authorization: String,
    pub content_length: usize,
    pub body: String,
}

/// The body's length in bytes, as the Content-Length header and field give it.
pub open spec fn body_length(body: Seq<char>) -> usize {
    encode_utf8(body).len() as usize
}

/// The authorization token for posting `message` with timestamp `date_time`
/// under `config`, or `None` where the shared key is not valid base64.
pub open spec fn request_token(config: QueueConfig, message: Seq<char>, date_time: Seq<char>) -> Option<
    Seq<char>,
> {
    let body = envelope_text(message);
    authorization_token(
        string_to_sign(
            body_length(body) as nat,
            date_time,
            config.account_name@,
            config.queue_name@,
        ),
        config.account_key@,
        config.account_name@,
    )
}

/// What a request for `message` stamped `date_time` holds under `config`.
pub open spec fn is_request_for(
    req: SignedRequest,
    config: QueueConfig,
    message: Seq<char>,
    date_time: Seq<char>,
) -> bool {
    &&& req.url@ == config.queue_url@
    &&& req.date@ == date_time
    &&& req.body@ == envelope_text(message)
    &&& req.content_length == body_length(envelope_text(message))
    &&& request_token(config, message, date_time) matches Some(token) && req.authorization@ == token
}

/// Builds the signed request that posts `message_text` to the queue, stamped
/// `date_time`; the same timestamp goes into the signature and the header.
/// Fails only where the shared key is not valid base64.
pub fn build_request(config: &QueueConfig, message_text: String, date_time: String) -> (r: Result<
    SignedRequest,
    SignError,
>)
    ensures
        match request_token(*config, message_text@, date_time@) {
            Some(_) => r matches Ok(req) && is_request_for(req, *config, message_text@, date_time@),
            None => r == Err::<SignedRequest, SignError>(SignError::KeyDecodeError),
        },
{
    let body = create_content_string(message_text);
    let content_length = body.as_str().len();
    let to_sign = construct_signature(
        content_length,
        date_time.clone(),
        config.account_name.as_str(),
        config.queue_name.as_str(),
    );
    match sign(to_sign.as_str(), config.account_key.as_str(), config.account_name.as_str()) {
        Ok(authorization) => Ok(
            SignedRequest {
                url: config.queue_url.clone(),
                date: date_time,
                authorization,
                content_length,
                body,
            },
        ),
        Err(e) => Err(e),
    }
}

/// Builds the signed request that posts `message_text` to the queue, stamped
/// with the local wall-clock time labelled `GMT`.
pub fn prepare_request(config: &QueueConfig, message_text: String) -> (r: Result<
    SignedRequest,
    SignError,
>)
    ensures
        exists|dt: LocalDateTime|
            #![trigger timestamp_text(dt)]
            dt.wf() && match request_token(*config, message_text@, timestamp_text(dt)) {
                Some(_) => r matches Ok(req) && is_request_for(
                    req,
                    *config,
                    message_text@,
                    timestamp_text(dt),
                ),
                None => r == Err::<SignedRequest, SignError>(SignError::KeyDecodeError),
            },
{
    let date_time = current_timestamp();
    build_request(config, message_text, date_time)
}

} // verus!
