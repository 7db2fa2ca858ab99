use flipkart_scraper_api::api::{handle_request, Step};
use flipkart_scraper_api::envelope::HttpResponse;
use flipkart_scraper_api::info::ServiceConfig;
use flipkart_scraper_api::route::{match_route, Route};

fn cfg() -> ServiceConfig {
    ServiceConfig {
        name: "flipkart-scraper-api".to_string(),
        description: "scrapes product details".to_string(),
        version: "1.0.0".to_string(),
        authors: "someone".to_string(),
        repository: "https://example.invalid/repo".to_string(),
        license: "GPL-3.0".to_string(),
        deploy_url: "https://0.0.0.0:10000".to_string(),
        base_origin: b"https://www.flipkart.com".to_vec(),
    }
}

#[test]
fn root_path_is_info() {
    assert!(matches!(match_route(b"/"), Route::Info));
    assert!(matches!(match_route(b""), Route::Info));
}

#[test]
fn search_without_capture_has_empty_query() {
    match match_route(b"/search") {
        Route::Search { query } => assert_eq!(query, b"".to_vec()),
        _ => panic!("expected the search route"),
    }
    match match_route(b"/search/") {
        Route::Search { query } => assert_eq!(query, b"".to_vec()),
        _ => panic!("expected the search route"),
    }
}

#[test]
fn search_capture_is_decoded() {
    match match_route(b"/search/red%20phone") {
        Route::Search { query } => assert_eq!(query, b"red phone".to_vec()),
        _ => panic!("expected the search route"),
    }
}

#[test]
fn search_capture_keeps_separators() {
    match match_route(b"/search/a/b/c") {
        Route::Search { query } => assert_eq!(query, b"a/b/c".to_vec()),
        _ => panic!("expected the search route"),
    }
}

#[test]
fn search_capture_with_bad_encoding_is_unmatched() {
    assert!(matches!(match_route(b"/search/a%zz"), Route::NotFound));
}

#[test]
fn product_capture_joins_segments() {
    match match_route(b"/product/mobiles/apple-iphone/p/itm123") {
        Route::Product { fragment } => {
            assert_eq!(fragment, b"mobiles/apple-iphone/p/itm123".to_vec())
        }
        _ => panic!("expected the product route"),
    }
}

#[test]
fn product_without_capture_is_unmatched() {
    assert!(matches!(match_route(b"/product"), Route::NotFound));
    assert!(matches!(match_route(b"/product/"), Route::NotFound));
}

#[test]
fn demo_paths_do_not_shadow_search_or_product() {
    assert!(matches!(match_route(b"/hello"), Route::Greet));
    assert!(matches!(match_route(b"/hello/world"), Route::HelloWorld));
    assert!(matches!(
        match_route(b"/hello/%D0%BC%D0%B8%D1%80"),
        Route::HelloMir
    ));
    assert!(matches!(match_route(b"/search/x"), Route::Search { .. }));
    assert!(matches!(match_route(b"/product/x"), Route::Product { .. }));
}

#[test]
fn wave_path_binds_name_and_age() {
    match match_route(b"/wave/Rocketeer/100") {
        Route::Wave { name, age } => {
            assert_eq!(name, b"Rocketeer".to_vec());
            assert_eq!(age, 100);
        }
        _ => panic!("expected the wave route"),
    }
}

#[test]
fn wave_path_with_bad_age_is_unmatched() {
    assert!(matches!(match_route(b"/wave/Rocketeer/old"), Route::NotFound));
    assert!(matches!(match_route(b"/wave/Rocketeer/300"), Route::NotFound));
    assert!(matches!(match_route(b"/wave/Rocketeer"), Route::NotFound));
    assert!(matches!(match_route(b"/wave//7"), Route::NotFound));
    assert!(matches!(match_route(b"/wave/a/b/c"), Route::NotFound));
}

#[test]
fn unmatched_path_redirects_to_root() {
    let s = handle_request(&cfg(), b"/does/not/exist", b"");
    match s {
        Step::Respond(HttpResponse::Redirect { status, location }) => {
            assert_eq!(status, 308);
            assert_eq!(location, b"/".to_vec());
        }
        _ => panic!("expected a redirect"),
    }
}

#[test]
fn root_request_is_json_info() {
    let s = handle_request(&cfg(), b"/", b"");
    match s {
        Step::Respond(HttpResponse::Json { status, body }) => {
            assert_eq!(status, 200);
            let text = String::from_utf8(body).unwrap();
            let expected = "{\"name\":\"flipkart-scraper-api\",\
                \"description\":\"scrapes product details\",\
                \"version\":\"1.0.0\",\
                \"authors\":\"someone\",\
                \"repository\":\"https://example.invalid/repo\",\
                \"license\":\"GPL-3.0\",\
                \"usage\":{\"search_api\":\"https://0.0.0.0:10000/search/{product_name}\",\
                \"product_api\":\"https://0.0.0.0:10000/product/{product_link_argument}\"}}";
            assert_eq!(text, expected);
        }
        _ => panic!("expected the info document"),
    }
}
