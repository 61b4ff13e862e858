//! The Shared Key string to sign for a put-message request.
use vstd::prelude::*;
use crate::canonical::{canonical_headers, canonical_resource, headers_text, resource_text};
use crate::text::{append_decimal, decimal};

verus! {

/// The Content-Length field: empty for an empty body, else the decimal length.
pub open spec fn content_length_field(content_length: nat) -> Seq<char> {
    if content_length == 0 {
        Seq::empty()
    } else {
        decimal(content_length)
    }
}

/// The twelve fixed fields, in order: verb, Content-Encoding, Content-Language,
/// Content-Length, Content-MD5, Content-Type, Date, If-Modified-Since, If-Match,
/// If-None-Match, If-Unmodified-Since and Range. Only the verb and the length
/// are ever non-empty.
pub open spec fn signature_fields(content_length: nat) -> Seq<Seq<char>> {
    seq![
        seq!['P', 'O', 'S', 'T'],
        Seq::empty(),
        Seq::empty(),
        content_length_field(content_length),
        Seq::empty(),
        Seq::empty(),
        Seq::empty(),
        Seq::empty(),
        Seq::empty(),
        Seq::empty(),
        Seq::empty(),
        Seq::empty(),
    ]
}

/// Each field followed by a newline.
pub open spec fn terminated(fields: Seq<Seq<char>>) -> Seq<char>
    decreases fields.len(),
{
    if fields.len() == 0 {
        Seq::empty()
    } else {
        terminated(fields.drop_last()) + fields.last() + seq!['\n']
    }
}

/// The string to sign: the twelve fields, each ending in a newline, then the
/// canonicalized headers, a newline, and the canonicalized resource, which
/// ends the string.
pub open spec fn string_to_sign(
    content_length: nat,
    date_time: Seq<char>,
    account: Seq<char>,
    queue: Seq<char>,
) -> Seq<char> {
    terminated(signature_fields(content_length)) + headers_text(date_time) + seq!['\n']
        + resource_text(account, queue)
}

/// The fourth field of the string to sign is empty for an empty body and
/// otherwise the decimal length with no leading zero; there are twelve fields.
pub proof fn lemma_content_length_field(content_length: nat)
    ensures
        signature_fields(content_length).len() == 12,
        signature_fields(content_length)[3] == content_length_field(content_length),
        content_length == 0 ==> content_length_field(content_length).len() == 0,
        content_length > 0 ==> content_length_field(content_length) == decimal(content_length)
            && content_length_field(content_length).len() > 0
            && content_length_field(content_length)[0] != '0',
{
    if content_length > 0 {
        crate::text::lemma_no_leading_zero(content_length, 1);
    }
}

proof fn lemma_terminated_step(fields: Seq<Seq<char>>, k: int)
    requires
        1 <= k <= fields.len(),
    ensures
        terminated(fields.take(k)) == terminated(fields.take(k - 1)) + fields[k - 1] + seq!['\n'],
{
    assert(fields.take(k).drop_last() =~= fields.take(k - 1));
}

/// The string to sign, written out: `POST`, then eleven newlines around the
/// Content-Length field (the fourth of twelve newline-terminated fields), then
/// the canonicalized headers, a newline and the unterminated canonicalized
/// resource.
pub proof fn lemma_string_to_sign_layout(
    content_length: nat,
    date_time: Seq<char>,
    account: Seq<char>,
    queue: Seq<char>,
)
    ensures
        string_to_sign(content_length, date_time, account, queue) == seq!['P', 'O', 'S', 'T', '\n', '\n', '\n']
            + content_length_field(content_length) + seq!['\n', '\n', '\n', '\n', '\n', '\n', '\n', '\n', '\n']
            + headers_text(date_time) + seq!['\n'] + resource_text(account, queue),
{
    let f = signature_fields(content_length);
    assert(f.take(0) =~= Seq::<Seq<char>>::empty());
    lemma_terminated_step(f, 1);
    lemma_terminated_step(f, 2);
    lemma_terminated_step(f, 3);
    lemma_terminated_step(f, 4);
    lemma_terminated_step(f, 5);
    lemma_terminated_step(f, 6);
    lemma_terminated_step(f, 7);
    lemma_terminated_step(f, 8);
    lemma_terminated_step(f, 9);
    lemma_terminated_step(f, 10);
    lemma_terminated_step(f, 11);
    lemma_terminated_step(f, 12);
    assert(f.take(12) =~= f);
    assert(terminated(f.take(0)) =~= Seq::<char>::empty());
    assert(terminated(f) =~= seq!['P', 'O', 'S', 'T', '\n', '\n', '\n'] + content_length_field(
        content_length,
    ) + seq!['\n', '\n', '\n', '\n', '\n', '\n', '\n', '\n', '\n']);
}

fn append_newline(out: &mut String)
    ensures
        final(out)@ == old(out)@ + seq!['\n'],
{
    proof { reveal_strlit("\n"); }
    out.append("\n");
}

/// Builds the string to sign for a put-message request whose body is
/// `content_length` bytes long, stamped `date_time`, for `queue` in `account`.
pub fn construct_signature(
    content_length: usize,
    date_time: String,
    account: &str,
    queue: &str,
) -> (r: String)
    ensures
        r@ == string_to_sign(content_length as nat, date_time@, account@, queue@),
{
    proof { reveal_strlit("POST"); }
    let mut r = String::from_str("POST");
    append_newline(&mut r);
    // Content-Encoding, Content-Language
    append_newline(&mut r);
    append_newline(&mut r);
    let ghost before_length = r@;
    if content_length > 0 {
        append_decimal(&mut r, content_length);
    }
    assert(r@ == before_length + content_length_field(content_length as nat));
    append_newline(&mut r);
    proof {
        let f = signature_fields(content_length as nat);
        assert(f.take(0) =~= Seq::<Seq<char>>::empty());
        assert(f.take(1).drop_last() =~= f.take(0));
        assert(f.take(2).drop_last() =~= f.take(1));
        assert(f.take(3).drop_last() =~= f.take(2));
        assert(f.take(4).drop_last() =~= f.take(3));
        assert(terminated(f.take(0)) =~= Seq::<char>::empty());
        assert(seq!['P', 'O', 'S', 'T'] =~= "POST"@);
        assert(terminated(f.take(1)) =~= seq!['P', 'O', 'S', 'T', '\n']);
        assert(terminated(f.take(2)) == terminated(f.take(1)) + seq!['\n']);
        assert(terminated(f.take(3)) == terminated(f.take(2)) + seq!['\n']);
        assert(terminated(f.take(4)) == terminated(f.take(3)) + f[3] + seq!['\n']);
        assert(r@ =~= terminated(f.take(4)));
    }
    // Content-MD5 through Range
    let mut i: usize = 0;
    while i < 8
        invariant
            0 <= i <= 8,
            r@ == terminated(signature_fields(content_length as nat).take(4 + i)),
        decreases 8 - i,
    {
        append_newline(&mut r);
        proof {
            let f = signature_fields(content_length as nat);
            assert(f.take(4 + i + 1).drop_last() =~= f.take(4 + i));
            assert(f.take(4 + i + 1).last() =~= Seq::empty());
        }
        i = i + 1;
    }
    let headers = canonical_headers(date_time);
    r.append(headers.as_str());
    append_newline(&mut r);
    let resource = canonical_resource(account, queue);
    r.append(resource.as_str());
    proof {
        assert(signature_fields(content_length as nat).take(12) =~= signature_fields(content_length as nat));
    }
    r
}

} // verus!
