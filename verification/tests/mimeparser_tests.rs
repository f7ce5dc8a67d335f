use deltachat::mimeparser::{is_known, parse_message_id, parse_message_ids, MimeMessage};

#[test]
fn test_parse_message_id() {
    let test = parse_message_id("<foobar>");
    assert!(test.is_ok());
    assert_eq!(test.unwrap(), "foobar");

    let test = parse_message_id("<foo> <bar>");
    assert!(test.is_ok());
    assert_eq!(test.unwrap(), "foo");

    let test = parse_message_id("  < foo > <bar>");
    assert!(test.is_ok());
    assert_eq!(test.unwrap(), "foo");

    let test = parse_message_id("foo");
    assert!(test.is_ok());
    assert_eq!(test.unwrap(), "foo");

    let test = parse_message_id(" foo ");
    assert!(test.is_ok());
    assert_eq!(test.unwrap(), "foo");

    let test = parse_message_id("foo bar");
    assert!(test.is_ok());
    assert_eq!(test.unwrap(), "foo");

    let test = parse_message_id("  foo  bar ");
    assert!(test.is_ok());
    assert_eq!(test.unwrap(), "foo");

    let test = parse_message_id("");
    assert!(test.is_err());

    let test = parse_message_id(" ");
    assert!(test.is_err());

    let test = parse_message_id("<>");
    assert!(test.is_err());

    let test = parse_message_id("<> bar");
    assert!(test.is_ok());
    assert_eq!(test.unwrap(), "bar");
}

#[test]
fn test_parse_message_ids() {
    let test = parse_message_ids("  foo  bar <foobar>").unwrap();
    assert_eq!(test.len(), 3);
    assert_eq!(test[0], "foo");
    assert_eq!(test[1], "bar");
    assert_eq!(test[2], "foobar");

    let test = parse_message_ids("  < foobar >").unwrap();
    assert_eq!(test.len(), 1);
    assert_eq!(test[0], "foobar");

    let test = parse_message_ids("").unwrap();
    assert!(test.is_empty());

    let test = parse_message_ids(" ").unwrap();
    assert!(test.is_empty());

    let test = parse_message_ids("  < ").unwrap();
    assert!(test.is_empty());
}

#[test]
fn test_is_known_headers() {
    assert!(is_known("date"));
    assert!(is_known("references"));
    assert!(is_known("message-id"));
    assert!(is_known("subject"));
    assert!(!is_known("secure-join"));
    assert!(!is_known("x-unknown"));
    assert!(!is_known(""));
}

#[test]
fn test_mime_message_headers() {
    let mut mime = MimeMessage::new();
    assert!(!mime.was_encrypted());
    assert!(mime
        .get(deltachat::mimeparser::HeaderDef::SecureJoin)
        .is_none());
    mime.secure_join = Some("vc-request".to_string());
    mime.encrypted = true;
    assert!(mime.was_encrypted());
    assert_eq!(
        mime.get(deltachat::mimeparser::HeaderDef::SecureJoin).unwrap(),
        "vc-request"
    );
}
