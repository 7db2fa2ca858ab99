use flipkart_scraper_api::api::{downstream_response, handle_request, Downstream, Step};
use flipkart_scraper_api::demo::{greeting, mir_greeting, wave_greeting, world_greeting};
use flipkart_scraper_api::envelope::HttpResponse;
use flipkart_scraper_api::info::ServiceConfig;

fn cfg() -> ServiceConfig {
    ServiceConfig {
        name: "svc".to_string(),
        description: "d".to_string(),
        version: "1".to_string(),
        authors: "a".to_string(),
        repository: "r".to_string(),
        license: "l".to_string(),
        deploy_url: "https://h".to_string(),
        base_origin: b"https://www.flipkart.com".to_vec(),
    }
}

fn pairs(raw: &[(&[u8], &[u8])]) -> Vec<(Vec<u8>, Vec<u8>)> {
    raw.iter().map(|(k, v)| (k.to_vec(), v.to_vec())).collect()
}

#[test]
fn search_with_query_and_params_names_the_call() {
    let s = handle_request(&cfg(), b"/search/phone", b"sort=price");
    match s {
        Step::CallSearch { query, params } => {
            assert_eq!(query, b"phone".to_vec());
            assert_eq!(params, pairs(&[(b"sort", b"price")]));
        }
        _ => panic!("expected a search call"),
    }
}

#[test]
fn successful_search_data_becomes_200_envelope() {
    let r = downstream_response(&Downstream::Data(br#"{"title":"X"}"#.to_vec()));
    match r {
        HttpResponse::Json { status, body } => {
            assert_eq!(status, 200);
            assert_eq!(body, br#"{"data":{"title":"X"}}"#.to_vec());
        }
        _ => panic!("expected a JSON response"),
    }
}

#[test]
fn bare_search_calls_with_empty_query() {
    let s = handle_request(&cfg(), b"/search", b"");
    match s {
        Step::CallSearch { query, params } => {
            assert_eq!(query, b"".to_vec());
            assert_eq!(params, pairs(&[]));
        }
        _ => panic!("expected a search call"),
    }
}

#[test]
fn product_request_reconstructs_the_url() {
    let s = handle_request(
        &cfg(),
        b"/product/mobiles/apple-iphone/p/itm123",
        b"pincode=110001",
    );
    match s {
        Step::CallProduct { url } => assert_eq!(
            url,
            b"https://www.flipkart.com/mobiles/apple-iphone/p/itm123?pincode=110001".to_vec()
        ),
        _ => panic!("expected a product call"),
    }
}

#[test]
fn unmatched_request_redirects_without_any_call() {
    let s = handle_request(&cfg(), b"/does/not/exist", b"irrelevant=1");
    match s {
        Step::Respond(HttpResponse::Redirect { status, location }) => {
            assert_eq!(status, 308);
            assert_eq!(location, b"/".to_vec());
        }
        _ => panic!("expected a redirect and no collaborator call"),
    }
}

#[test]
fn malformed_query_is_a_400_binding_error() {
    let s = handle_request(&cfg(), b"/search/x", b"a=%zz");
    match s {
        Step::Respond(HttpResponse::Json { status, body }) => {
            assert_eq!(status, 400);
            assert_eq!(
                String::from_utf8(body).unwrap(),
                r#"{"error":{"error_message":"Invalid query parameters","more_details":"malformed percent-encoding in query parameters"}}"#
            );
        }
        _ => panic!("expected a binding error"),
    }
}

#[test]
fn unparsable_product_fragment_is_a_400_binding_error() {
    let s = handle_request(&cfg(), b"/product/a%FFb", b"");
    match s {
        Step::Respond(HttpResponse::Json { status, body }) => {
            assert_eq!(status, 400);
            assert_eq!(
                String::from_utf8(body).unwrap(),
                r#"{"error":{"error_message":"Invalid URL"}}"#
            );
        }
        _ => panic!("expected a binding error"),
    }
}

#[test]
fn collaborator_failure_becomes_502() {
    let r = downstream_response(&Downstream::CollabFailed("host unreachable".to_string()));
    match r {
        HttpResponse::Json { status, body } => {
            assert_eq!(status, 502);
            assert_eq!(
                String::from_utf8(body).unwrap(),
                r#"{"error":{"error_message":"host unreachable"}}"#
            );
        }
        _ => panic!("expected a JSON response"),
    }
}

#[test]
fn encode_failure_becomes_500_not_200() {
    let r = downstream_response(&Downstream::EncodeFailed("key must be a string".to_string()));
    match r {
        HttpResponse::Json { status, body } => {
            assert_eq!(status, 500);
            let text = String::from_utf8(body).unwrap();
            assert!(text.starts_with(r#"{"error":{"error_message":"Internal Server Error""#));
            assert!(text.contains("key must be a string"));
        }
        _ => panic!("expected a JSON response"),
    }
}

#[test]
fn greeting_uses_query_options() {
    let s = handle_request(&cfg(), b"/hello", b"lang=ru&emoji&name=Rocketeer");
    match s {
        Step::Respond(HttpResponse::Text { status, body }) => {
            assert_eq!(status, 200);
            assert_eq!(String::from_utf8(body).unwrap(), "👋 Привет, Rocketeer!");
        }
        _ => panic!("expected a text response"),
    }
}

#[test]
fn greeting_defaults_without_options() {
    assert_eq!(String::from_utf8(greeting(&pairs(&[]))).unwrap(), "Hi!");
    assert_eq!(
        String::from_utf8(greeting(&pairs(&[(b"lang", b"en")]))).unwrap(),
        "Hello!"
    );
    // an unrecognized language falls back, as an absent one does
    assert_eq!(
        String::from_utf8(greeting(&pairs(&[(b"lang", b"fr"), (b"name", b"Zoe")]))).unwrap(),
        "Hi, Zoe!"
    );
}

#[test]
fn greeting_last_value_wins() {
    assert_eq!(
        String::from_utf8(greeting(&pairs(&[(b"lang", b"ru"), (b"lang", b"en")]))).unwrap(),
        "Hello!"
    );
}

#[test]
fn fixed_greetings_and_wave() {
    assert_eq!(String::from_utf8(world_greeting()).unwrap(), "Hello, world!");
    assert_eq!(String::from_utf8(mir_greeting()).unwrap(), "Привет, мир!");
    assert_eq!(
        String::from_utf8(wave_greeting(b"Rocketeer", 100)).unwrap(),
        "👋 Hello, 100 year old named Rocketeer!"
    );
    let s = handle_request(&cfg(), b"/wave/Rocketeer/100", b"");
    match s {
        Step::Respond(HttpResponse::Text { status, body }) => {
            assert_eq!(status, 200);
            assert_eq!(
                String::from_utf8(body).unwrap(),
                "👋 Hello, 100 year old named Rocketeer!"
            );
        }
        _ => panic!("expected a text response"),
    }
}
