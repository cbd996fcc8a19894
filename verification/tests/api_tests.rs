use sm::monitor::api::{handle_notification, validate_auth, NotificationReply};

#[test]
fn validate_auth_token_test() {
    // valid tokens
    assert_eq!(true, validate_auth("test", "Basic dGVzdA=="));
    assert_eq!(true, validate_auth("test", " Basic dGVzdA=="));
    assert_eq!(true, validate_auth("test", " Basic  dGVzdA==  "));

    // invalid tokens
    assert_eq!(false, validate_auth("test", "dGVzdA==  "));
    assert_eq!(false, validate_auth("test", "Basi cdGVzdA=="));
    assert_eq!(false, validate_auth("tests", "Basic dGVzdA=="));

    // invalid base64
    assert_eq!(false, validate_auth("tests", "Basic cdGVzdA=="));
}

#[test]
fn bearer_scheme_is_rejected() {
    assert_eq!(false, validate_auth("test", "Bearer dGVzdA=="));
}

#[test]
fn malformed_base64_is_rejected() {
    assert_eq!(false, validate_auth("test", "Basic %%%%"));
}

#[test]
fn wrong_decoded_token_is_rejected() {
    // "d3Jvbmc=" decodes to "wrong".
    assert_eq!(false, validate_auth("test", "Basic d3Jvbmc="));
}

#[test]
fn missing_space_is_rejected() {
    assert_eq!(false, validate_auth("test", "BasicdGVzdA=="));
}

#[test]
fn notification_with_correct_token_is_accepted() {
    let reply = handle_notification("test", "Basic dGVzdA==", &"hi".to_string());
    match &reply {
        NotificationReply::Accepted { text } => assert_eq!(text, "hi"),
        NotificationReply::Forbidden => panic!("expected the message to be accepted"),
    }
    assert_eq!(reply.status_code(), 202);
    assert_eq!(reply.body_text(), "ACCEPTED");
}

#[test]
fn accepted_message_is_markdown_escaped() {
    let reply = handle_notification("test", "Basic dGVzdA==", &"a_b.c".to_string());
    match &reply {
        NotificationReply::Accepted { text } => assert_eq!(text, "a\\_b\\.c"),
        NotificationReply::Forbidden => panic!("expected the message to be accepted"),
    }
}

#[test]
fn notification_with_wrong_token_is_forbidden() {
    let reply = handle_notification("test", "Basic bad_token", &"hi".to_string());
    assert!(matches!(reply, NotificationReply::Forbidden));
    assert_eq!(reply.status_code(), 403);
    assert_eq!(reply.body_text(), "FORBIDDEN");
}
