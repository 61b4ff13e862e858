//! The canonicalized headers and canonicalized resource of a put-message request.
use vstd::prelude::*;

verus! {

/// The storage service API version that every request is signed for.
pub const X_MS_VERSION: &'static str = "2011-08-18";

/// `x-ms-date:{date_time}\nx-ms-version:{version}`: the two `x-ms-` headers in
/// name order, one per line, with no trailing newline.
pub open spec fn headers_text(date_time: Seq<char>) -> Seq<char> {
    "x-ms-date:"@ + date_time + "\nx-ms-version:"@ + X_MS_VERSION@
}

/// `/{account}/{queue}/messages`.
pub open spec fn resource_text(account: Seq<char>, queue: Seq<char>) -> Seq<char> {
    "/"@ + account + "/"@ + queue + "/messages"@
}

/// Builds the canonicalized headers for a request stamped `date_time`.
pub fn canonical_headers(date_time: String) -> (r: String)
    ensures
        r@ == headers_text(date_time@),
{
    let mut r = String::from_str("x-ms-date:");
    r.append(date_time.as_str());
    r.append("\nx-ms-version:");
    r.append(X_MS_VERSION);
    r
}

/// Builds the canonicalized resource for the messages of `queue` in `account`.
/// The `/messages` suffix is required by the put-message operation.
pub fn canonical_resource(account: &str, queue: &str) -> (r: String)
    ensures
        r@ == resource_text(account@, queue@),
{
    let mut r = String::from_str("/");
    r.append(account);
    r.append("/");
    r.append(queue);
    r.append("/messages");
    r
}

} // verus!
