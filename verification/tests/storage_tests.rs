use recordiary::storage::{
    audio_link_url, is_success_status, object_url, public_object_url, sign_url,
    signed_url_from_response, signed_url_of_fields, signed_url_request_body,
};

#[test]
fn status_codes_in_the_two_hundreds_are_success() {
    assert!(is_success_status(200));
    assert!(is_success_status(204));
    assert!(is_success_status(299));
    assert!(!is_success_status(199));
    assert!(!is_success_status(300));
    assert!(!is_success_status(404));
    assert!(!is_success_status(500));
}

#[test]
fn storage_urls_follow_the_gateway_layout() {
    assert_eq!(
        object_url("https://h", "diary", "a.m4a"),
        "https://h/storage/v1/object/diary/a.m4a"
    );
    assert_eq!(
        public_object_url("https://h", "diary", "a.m4a"),
        "https://h/storage/v1/object/public/diary/a.m4a"
    );
    assert_eq!(
        sign_url("https://h", "diary", "a.m4a"),
        "https://h/storage/v1/object/sign/diary/a.m4a"
    );
    assert_eq!(
        audio_link_url("https://h", "object/sign/diary/a.m4a?token=t"),
        "https://h/storage/v1/object/sign/diary/a.m4a?token=t"
    );
}

#[test]
fn signing_request_asks_for_ninety_days() {
    assert_eq!(signed_url_request_body(), "{\"expiresIn\":7776000}");
}

#[test]
fn signing_response_with_url_is_read_out() {
    // The field's value, not the body, must come back: a reader handing its
    // input through unchanged would fail here.
    let body = "{\"signedURL\":\"object/sign/diary/a.m4a?token=abc\"}";
    let got = signed_url_from_response(body).unwrap();
    assert_eq!(got, "object/sign/diary/a.m4a?token=abc");
}

#[test]
fn signing_response_without_url_carries_the_gateway_message() {
    let body = "{\"message\":\"bucket not found\"}";
    let err = signed_url_from_response(body).unwrap_err();
    assert_eq!(err.message, "bucket not found");
}

#[test]
fn unparseable_signing_response_is_a_fixed_error() {
    let err = signed_url_from_response("not json").unwrap_err();
    assert_eq!(err.message, "signing failed");
    let err = signed_url_from_response("{\"signedURL\":42}").unwrap_err();
    assert_eq!(err.message, "signing failed");
}

#[test]
fn signing_fields_decide_the_outcome() {
    assert_eq!(
        signed_url_of_fields(Some("u".to_string()), Some("m".to_string())).unwrap(),
        "u"
    );
    assert_eq!(
        signed_url_of_fields(None, Some("m".to_string())).unwrap_err().message,
        "m"
    );
    assert_eq!(signed_url_of_fields(None, None).unwrap_err().message, "signing failed");
}
