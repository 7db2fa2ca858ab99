use flipkart_scraper_api::bytes::{parse_u8, u8_decimal};
use flipkart_scraper_api::percent::percent_decode;
use flipkart_scraper_api::product::{build_product_url, product_url};
use flipkart_scraper_api::query::parse_query_exec;

const BASE: &[u8] = b"https://www.flipkart.com";

fn pairs(raw: &[(&[u8], &[u8])]) -> Vec<(Vec<u8>, Vec<u8>)> {
    raw.iter().map(|(k, v)| (k.to_vec(), v.to_vec())).collect()
}

#[test]
fn query_pairs_are_decoded_in_order() {
    let got = parse_query_exec(b"sort=price&min_price=100").unwrap();
    assert_eq!(got, pairs(&[(b"sort", b"price"), (b"min_price", b"100")]));
}

#[test]
fn empty_query_has_no_pairs() {
    assert_eq!(parse_query_exec(b"").unwrap(), pairs(&[]));
}

#[test]
fn key_without_value_gets_empty_value() {
    assert_eq!(parse_query_exec(b"emoji"), Some(pairs(&[(b"emoji", b"")])));
    assert_eq!(
        parse_query_exec(b"emoji&name=Bob"),
        Some(pairs(&[(b"emoji", b""), (b"name", b"Bob")]))
    );
}

#[test]
fn empty_chunks_are_skipped() {
    assert_eq!(
        parse_query_exec(b"a=1&&b=2&"),
        Some(pairs(&[(b"a", b"1"), (b"b", b"2")]))
    );
}

#[test]
fn plus_and_percent_decode_in_query() {
    assert_eq!(
        parse_query_exec(b"q=red+phone%21"),
        Some(pairs(&[(b"q", b"red phone!")]))
    );
}

#[test]
fn malformed_percent_encoding_is_rejected() {
    assert_eq!(parse_query_exec(b"a=%zz"), None);
    assert_eq!(parse_query_exec(b"a=%2"), None);
    assert_eq!(parse_query_exec(b"%g0=1"), None);
}

#[test]
fn unknown_keys_pass_through_untouched() {
    assert_eq!(
        parse_query_exec(b"weird-key=5&sort=price"),
        Some(pairs(&[(b"weird-key", b"5"), (b"sort", b"price")]))
    );
}

#[test]
fn path_decoding_keeps_plus_signs() {
    assert_eq!(percent_decode(b"a+b%20c", false), Some(b"a+b c".to_vec()));
    assert_eq!(percent_decode(b"a+b%20c", true), Some(b"a b c".to_vec()));
    assert_eq!(percent_decode(b"%4a%6F", false), Some(b"Jo".to_vec()));
    assert_eq!(percent_decode(b"%", false), None);
}

#[test]
fn u8_parsing_and_rendering() {
    assert_eq!(parse_u8(b"0"), Some(0));
    assert_eq!(parse_u8(b"007"), Some(7));
    assert_eq!(parse_u8(b"255"), Some(255));
    assert_eq!(parse_u8(b"256"), None);
    assert_eq!(parse_u8(b""), None);
    assert_eq!(parse_u8(b"12a"), None);
    assert_eq!(u8_decimal(0), b"0".to_vec());
    assert_eq!(u8_decimal(42), b"42".to_vec());
    assert_eq!(u8_decimal(100), b"100".to_vec());
    assert_eq!(u8_decimal(255), b"255".to_vec());
}

#[test]
fn product_url_appends_params_with_question_mark() {
    let u = build_product_url(BASE, b"mobiles/apple-iphone/p/itm123", &pairs(&[(
        b"pincode",
        b"110001",
    )]));
    assert_eq!(
        u,
        b"https://www.flipkart.com/mobiles/apple-iphone/p/itm123?pincode=110001".to_vec()
    );
}

#[test]
fn product_url_merges_into_existing_query() {
    let u = build_product_url(BASE, b"a/p?x=1", &pairs(&[(b"y", b"2")]));
    assert_eq!(u, b"https://www.flipkart.com/a/p?x=1&y=2".to_vec());
}

#[test]
fn product_url_without_params_is_bare() {
    let u = build_product_url(BASE, b"a/p", &pairs(&[]));
    assert_eq!(u, b"https://www.flipkart.com/a/p".to_vec());
}

#[test]
fn product_url_form_encodes_params() {
    let u = build_product_url(BASE, b"p", &pairs(&[(b"k v", b"a/b+*_.c")]));
    assert_eq!(u, b"https://www.flipkart.com/p?k+v=a%2Fb%2B*_.c".to_vec());
}

#[test]
fn valid_product_url_is_accepted() {
    let r = product_url(BASE, b"mobiles/apple-iphone/p/itm123", &pairs(&[(
        b"pincode",
        b"110001",
    )]));
    assert_eq!(
        r.unwrap(),
        b"https://www.flipkart.com/mobiles/apple-iphone/p/itm123?pincode=110001".to_vec()
    );
}

#[test]
fn unparsable_fragment_is_a_binding_error() {
    // a fragment holding bytes that are not UTF-8 cannot form a URL
    let r = product_url(BASE, &[0xff, 0xfe], &pairs(&[]));
    let e = r.err().expect("expected a binding error");
    assert_eq!(e.error_message, "Invalid URL".to_string());
    assert!(e.more_details.is_none());
}
