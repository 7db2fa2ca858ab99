use flipkart_scraper_api::envelope::{
    data_body, error_body, error_body_bytes, internal_error, redirect_to_root, success,
    ApiError, HttpResponse,
};

#[test]
fn error_envelope_without_details() {
    let body = error_body_bytes(b"boom", None);
    assert_eq!(
        String::from_utf8(body).unwrap(),
        r#"{"error":{"error_message":"boom"}}"#
    );
}

#[test]
fn error_envelope_with_details() {
    let body = error_body_bytes(b"bad input", Some(b"the query is malformed"));
    assert_eq!(
        String::from_utf8(body).unwrap(),
        r#"{"error":{"error_message":"bad input","more_details":"the query is malformed"}}"#
    );
}

#[test]
fn error_envelope_of_api_error_record() {
    let e = ApiError {
        error_message: "oops".to_string(),
        more_details: Some("see logs".to_string()),
    };
    assert_eq!(
        String::from_utf8(error_body(&e)).unwrap(),
        r#"{"error":{"error_message":"oops","more_details":"see logs"}}"#
    );
}

#[test]
fn json_strings_are_escaped() {
    let body = error_body_bytes(b"a\"b\\c\nd\te\rf", None);
    assert_eq!(
        String::from_utf8(body).unwrap(),
        "{\"error\":{\"error_message\":\"a\\\"b\\\\c\\nd\\te\\rf\"}}"
    );
}

#[test]
fn control_bytes_get_unicode_escapes() {
    let body = error_body_bytes(&[0x01, 0x1f, 0x08, 0x0c], None);
    assert_eq!(
        String::from_utf8(body).unwrap(),
        "{\"error\":{\"error_message\":\"\\u0001\\u001f\\b\\f\"}}"
    );
}

#[test]
fn multibyte_text_passes_through_unescaped() {
    let msg = "приве́т".as_bytes();
    let body = error_body_bytes(msg, None);
    let expected = format!("{{\"error\":{{\"error_message\":\"{}\"}}}}", "приве́т");
    assert_eq!(String::from_utf8(body).unwrap(), expected);
}

#[test]
fn data_envelope_wraps_serialized_json() {
    let body = data_body(br#"{"title":"X"}"#);
    assert_eq!(
        String::from_utf8(body).unwrap(),
        r#"{"data":{"title":"X"}}"#
    );
}

#[test]
fn success_is_200_with_data_envelope() {
    match success(br#"[1,2]"#) {
        HttpResponse::Json { status, body } => {
            assert_eq!(status, 200);
            assert_eq!(body, br#"{"data":[1,2]}"#.to_vec());
        }
        _ => panic!("expected a JSON response"),
    }
}

#[test]
fn internal_error_is_500_with_generic_message() {
    match internal_error(b"key must be a string") {
        HttpResponse::Json { status, body } => {
            assert_eq!(status, 500);
            let text = String::from_utf8(body).unwrap();
            assert!(text.starts_with(r#"{"error":{"error_message":"Internal Server Error""#));
            assert!(text.contains("key must be a string"));
            assert!(text.contains("Report any issues at"));
        }
        _ => panic!("expected a JSON response"),
    }
}

#[test]
fn redirect_points_at_root() {
    match redirect_to_root() {
        HttpResponse::Redirect { status, location } => {
            assert_eq!(status, 308);
            assert_eq!(location, b"/".to_vec());
        }
        _ => panic!("expected a redirect"),
    }
}
