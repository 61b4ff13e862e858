use base64::engine::general_purpose::STANDARD;
use base64::Engine;
use queuemsg::{
    authorization_header, build_request, canonical_headers, canonical_resource,
    construct_signature, create_content_string, format_date_str, hmac_256, sign, LocalDateTime,
    QueueConfig, SignError, X_MS_VERSION,
};

const END_TO_END_STS: &str = "POST\n\n\n29\n\n\n\n\n\n\n\n\nx-ms-date:Mon, 02 Jan 2023 03:04:05 GMT\nx-ms-version:2011-08-18\n/acct/q1/messages";

#[test]
fn empty_body_gives_empty_length_field() {
    let s = construct_signature(0, "ts".to_string(), "a", "q");
    let fields: Vec<&str> = s.split('\n').collect();
    assert_eq!(fields[3], "");
    assert_eq!(s, "POST\n\n\n\n\n\n\n\n\n\n\n\nx-ms-date:ts\nx-ms-version:2011-08-18\n/a/q/messages");
}

#[test]
fn length_field_is_plain_decimal() {
    for (n, text) in [(1usize, "1"), (9, "9"), (10, "10"), (29, "29"), (100, "100"), (123456, "123456")] {
        let s = construct_signature(n, "ts".to_string(), "a", "q");
        let fields: Vec<&str> = s.split('\n').collect();
        assert_eq!(fields[3], text);
    }
    let s = construct_signature(usize::MAX, "ts".to_string(), "a", "q");
    let fields: Vec<&str> = s.split('\n').collect();
    assert_eq!(fields[3], usize::MAX.to_string());
}

#[test]
fn canonical_headers_are_date_then_version() {
    assert_eq!(X_MS_VERSION, "2011-08-18");
    assert_eq!(
        canonical_headers("Mon, 02 Jan 2023 03:04:05 GMT".to_string()),
        "x-ms-date:Mon, 02 Jan 2023 03:04:05 GMT\nx-ms-version:2011-08-18"
    );
    assert_eq!(canonical_headers(String::new()), "x-ms-date:\nx-ms-version:2011-08-18");
}

#[test]
fn canonical_resource_ends_in_messages() {
    assert_eq!(canonical_resource("acct", "q1"), "/acct/q1/messages");
    assert_eq!(canonical_resource("my-storage-account-name", "queue_name"), "/my-storage-account-name/queue_name/messages");
}

#[test]
fn string_to_sign_has_twelve_terminated_fields() {
    let s = construct_signature(7, "D".to_string(), "a", "q");
    let segments: Vec<&str> = s.split('\n').collect();
    // twelve fields, two header lines, one resource
    assert_eq!(segments.len(), 15);
    assert_eq!(segments[0], "POST");
    for (i, seg) in segments.iter().enumerate().take(12) {
        if i != 0 && i != 3 {
            assert_eq!(*seg, "");
        }
    }
    assert_eq!(segments[12], "x-ms-date:D");
    assert_eq!(segments[13], "x-ms-version:2011-08-18");
    assert_eq!(segments[14], "/a/q/messages");
    assert!(!s.ends_with('\n'));
}

#[test]
fn end_to_end_string_to_sign() {
    let s = construct_signature(29, "Mon, 02 Jan 2023 03:04:05 GMT".to_string(), "acct", "q1");
    assert_eq!(s, END_TO_END_STS);
    let token = sign(&s, "c2VjcmV0LWtleQ==", "acct").unwrap();
    assert_eq!(token, "SharedKey acct:i7YX7epEnNof+xwtdtAHGxHUmLgQYotchBsdwQtmJww=");
}

#[test]
fn hmac_matches_known_vector() {
    // RFC 4231, test case 2: key "Jefe"
    let sig = hmac_256("what do ya want for nothing?", "SmVmZQ==").unwrap();
    assert_eq!(sig, "W9zBRr9gdU5qBCQmCJV1x1oAPwidJzmDnexYuWTsOEM=");
}

#[test]
fn sign_is_deterministic_and_sensitive() {
    let key = "c2VjcmV0LWtleQ==";
    let a = sign(END_TO_END_STS, key, "acct").unwrap();
    let b = sign(END_TO_END_STS, key, "acct").unwrap();
    assert_eq!(a, b);
    let flipped = END_TO_END_STS.replacen("29", "28", 1);
    assert_ne!(sign(&flipped, key, "acct").unwrap(), a);
    // "secret-kez"
    assert_ne!(sign(END_TO_END_STS, "c2VjcmV0LWtleg==", "acct").unwrap(), a);
}

#[test]
fn sign_rejects_key_that_is_not_base64() {
    assert_eq!(sign("anything", "not-base64!!", "acct"), Err(SignError::KeyDecodeError));
    assert_eq!(hmac_256("anything", "not-base64!!"), Err(SignError::KeyDecodeError));
    // valid symbols, invalid length
    assert_eq!(hmac_256("anything", "abcde"), Err(SignError::KeyDecodeError));
}

#[test]
fn empty_key_signs() {
    let sig = hmac_256("data", "").unwrap();
    assert_eq!(STANDARD.decode(&sig).unwrap().len(), 32);
}

#[test]
fn signature_decodes_to_digest() {
    let sig = hmac_256("what do ya want for nothing?", "SmVmZQ==").unwrap();
    let digest = STANDARD.decode(&sig).unwrap();
    let expected: Vec<u8> = (0..32)
        .map(|i| u8::from_str_radix(&"5bdcc146bf60754e6a042426089575c75a003f089d2739839dec58b964ec3843"[2 * i..2 * i + 2], 16).unwrap())
        .collect();
    assert_eq!(digest, expected);
    assert_eq!(STANDARD.encode(&digest), sig);
}

#[test]
fn authorization_header_format() {
    assert_eq!(authorization_header("acct", "abc="), "SharedKey acct:abc=");
}

#[test]
fn envelope_for_hello() {
    assert_eq!(
        create_content_string("hello".to_string()),
        "<QueueMessage>\n<MessageText>hello</MessageText>\n</QueueMessage>"
    );
}

#[test]
fn envelope_keeps_payload_verbatim() {
    assert_eq!(
        create_content_string("a<b&c".to_string()),
        "<QueueMessage>\n<MessageText>a<b&c</MessageText>\n</QueueMessage>"
    );
    assert_eq!(create_content_string(String::new()).len(), 58);
}

fn date(year: i32, month: u32, day: u32, hour: u32, minute: u32, second: u32, weekday: u32) -> LocalDateTime {
    LocalDateTime { year, month, day, hour, minute, second, weekday }
}

#[test]
fn timestamp_format() {
    assert_eq!(format_date_str(&date(2023, 1, 2, 3, 4, 5, 0)), "Mon, 02 Jan 2023 03:04:05 GMT");
    assert_eq!(format_date_str(&date(2009, 9, 2, 20, 36, 40, 2)), "Wed, 02 Sep 2009 20:36:40 GMT");
    assert_eq!(format_date_str(&date(1999, 12, 31, 23, 59, 59, 4)), "Fri, 31 Dec 1999 23:59:59 GMT");
}

#[test]
fn timestamp_years_outside_four_digits() {
    assert_eq!(format_date_str(&date(7, 5, 1, 0, 0, 0, 6)), "Sun, 01 May 0007 00:00:00 GMT");
    assert_eq!(format_date_str(&date(12345, 5, 1, 0, 0, 0, 6)), "Sun, 01 May +12345 00:00:00 GMT");
    assert_eq!(format_date_str(&date(-44, 3, 15, 12, 0, 0, 1)), "Tue, 15 Mar -0044 12:00:00 GMT");
}

fn config(key: &str) -> QueueConfig {
    QueueConfig {
        account_name: "acct".to_string(),
        account_key: key.to_string(),
        queue_name: "q1".to_string(),
        queue_url: "https://acct.queue.core.windows.net/q1/messages".to_string(),
    }
}

#[test]
fn build_request_signs_the_envelope_length() {
    let ts = "Mon, 02 Jan 2023 03:04:05 GMT".to_string();
    let req = build_request(&config("c2VjcmV0LWtleQ=="), "hi".to_string(), ts.clone()).unwrap();
    assert_eq!(req.body, "<QueueMessage>\n<MessageText>hi</MessageText>\n</QueueMessage>");
    assert_eq!(req.content_length, 60);
    assert_eq!(req.date, ts);
    assert_eq!(req.url, "https://acct.queue.core.windows.net/q1/messages");
    let sts = construct_signature(60, ts, "acct", "q1");
    assert_eq!(req.authorization, sign(&sts, "c2VjcmV0LWtleQ==", "acct").unwrap());
}

#[test]
fn build_request_rejects_bad_key() {
    let r = build_request(&config("not-base64!!"), "hi".to_string(), "ts".to_string());
    assert!(matches!(r, Err(SignError::KeyDecodeError)));
}

#[test]
fn content_length_counts_bytes() {
    let ts = "ts".to_string();
    let req = build_request(&config("c2VjcmV0LWtleQ=="), "\u{e9}".to_string(), ts.clone()).unwrap();
    assert_eq!(req.content_length, 60);
    let sts = construct_signature(60, ts, "acct", "q1");
    assert_eq!(req.authorization, sign(&sts, "c2VjcmV0LWtleQ==", "acct").unwrap());
}

#[test]
fn prepared_request_carries_a_gmt_timestamp() {
    let req = queuemsg::prepare_request(&config("c2VjcmV0LWtleQ=="), "hi".to_string()).unwrap();
    assert!(req.date.ends_with(" GMT"));
    assert!(req.date.len() >= 29);
    assert_eq!(&req.date[3..5], ", ");
    let sts = construct_signature(60, req.date.clone(), "acct", "q1");
    assert_eq!(req.authorization, sign(&sts, "c2VjcmV0LWtleQ==", "acct").unwrap());
}

#[test]
fn current_timestamp_shape() {
    let ts = queuemsg::current_timestamp();
    let parts: Vec<&str> = ts.split(' ').collect();
    assert_eq!(parts.len(), 6);
    assert_eq!(parts[5], "GMT");
    assert_eq!(parts[4].len(), 8);
}
