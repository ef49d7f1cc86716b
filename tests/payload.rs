use hook::payload::{extract, ParseError};

#[test]
fn push_event_fields_are_extracted() {
    let body = br#"{"ref":"refs/heads/main","repository":{"full_name":"acme/site","id":7},
        "sender":{"login":"octo"},"commits":[{"id":"a"},{"id":"b"}],"extra":1.5}"#;
    let e = extract(body).unwrap();
    assert_eq!(e.repository_full_name, "acme/site");
    assert_eq!(e.git_ref, "refs/heads/main");
    assert_eq!(e.sender.as_deref(), Some("octo"));
    assert_eq!(e.commit_count, Some(2));
}

#[test]
fn missing_or_mistyped_fields_give_empty_text() {
    let e = extract(br#"{"repository":{"full_name":42},"ref":null}"#).unwrap();
    assert_eq!(e.repository_full_name, "");
    assert_eq!(e.git_ref, "");
    assert_eq!(e.sender, None);
    assert_eq!(e.commit_count, None);
    let e = extract(b"[1,2,3]").unwrap();
    assert_eq!(e.repository_full_name, "");
    assert_eq!(e.git_ref, "");
}

#[test]
fn optional_fields_are_best_effort() {
    let e = extract(br#"{"repository":{"full_name":"a/b"},"ref":"r","sender":"x","commits":{}}"#).unwrap();
    assert_eq!(e.repository_full_name, "a/b");
    assert_eq!(e.sender, None);
    assert_eq!(e.commit_count, None);
    let e = extract(br#"{"commits":[]}"#).unwrap();
    assert_eq!(e.commit_count, Some(0));
}

#[test]
fn invalid_json_is_a_parse_error() {
    assert_eq!(extract(b"{not json").err(), Some(ParseError::InvalidJson));
    assert_eq!(extract(b"").err(), Some(ParseError::InvalidJson));
}

#[test]
fn repeated_member_names_keep_one_value() {
    let e = extract(br#"{"ref":"refs/heads/a","ref":"refs/heads/b","repository":{"full_name":"x/y"}}"#).unwrap();
    assert_eq!(e.git_ref, "refs/heads/b");
    assert_eq!(e.repository_full_name, "x/y");
}

#[test]
fn large_objects_are_read_by_name() {
    let mut body = String::from("{");
    for i in 0..40 {
        body.push_str(&format!("\"k{}\":{},", i, i));
    }
    body.push_str("\"ref\":\"refs/heads/main\",\"repository\":{\"full_name\":\"acme/site\"}}");
    let e = extract(body.as_bytes()).unwrap();
    assert_eq!(e.git_ref, "refs/heads/main");
    assert_eq!(e.repository_full_name, "acme/site");
}
