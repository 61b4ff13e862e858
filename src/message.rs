//! The XML envelope that carries one queue message.
use vstd::prelude::*;

verus! {

/// `<QueueMessage>\n<MessageText>{contents}</MessageText>\n</QueueMessage>`.
/// The contents stand verbatim: escaping XML's reserved characters is the
/// producer's business.
pub open spec fn envelope_text(contents: Seq<char>) -> Seq<char> {
    "<QueueMessage>\n"@ + "<MessageText>"@ + contents + "</MessageText>\n"@ + "</QueueMessage>"@
}

/// Wraps `contents` in the queue's message envelope.
pub fn create_content_string(contents: String) -> (r: String)
    ensures
        r@ == envelope_text(contents@),
{
    let mut r = String::from_str("<QueueMessage>\n");
    r.append("<MessageText>");
    r.append(contents.as_str());
    r.append("</MessageText>\n");
    r.append("</QueueMessage>");
    r
}

} // verus!
