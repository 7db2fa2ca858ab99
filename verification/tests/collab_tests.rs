use flipkart_scraper::product_details::errors::FetchError;
use flipkart_scraper::search::errors::SearchError;
use flipkart_scraper::search::SearchParams;
use flipkart_scraper::{ProductDetails, ProductSearch};
use flipkart_scraper_api::collab::{product_response, search_response};
use flipkart_scraper_api::envelope::HttpResponse;

fn sample_search() -> ProductSearch {
    ProductSearch {
        query: "phone".to_string(),
        query_params: SearchParams::default(),
        query_url: "https://www.flipkart.com/search?q=phone".to_string(),
        results: Vec::new(),
    }
}

#[test]
fn successful_search_serializes_into_data_envelope() {
    let r = search_response(Ok(sample_search()));
    match r {
        HttpResponse::Json { status, body } => {
            assert_eq!(status, 200);
            let expected = format!(
                "{{\"data\":{}}}",
                serde_json::to_string(&sample_search()).unwrap()
            );
            assert_eq!(String::from_utf8(body).unwrap(), expected);
        }
        _ => panic!("expected a JSON response"),
    }
}

#[test]
fn search_failure_is_502_with_its_message() {
    let source = url::Url::parse("http://[").unwrap_err();
    let r = search_response(Err(SearchError::UrlParseError { source }));
    match r {
        HttpResponse::Json { status, body } => {
            assert_eq!(status, 502);
            assert_eq!(
                String::from_utf8(body).unwrap(),
                r#"{"error":{"error_message":"URL parsing error"}}"#
            );
        }
        _ => panic!("expected a JSON response"),
    }
}

#[test]
fn successful_product_serializes_into_data_envelope() {
    let r = product_response(Ok(ProductDetails::default()));
    match r {
        HttpResponse::Json { status, body } => {
            assert_eq!(status, 200);
            let expected = format!(
                "{{\"data\":{}}}",
                serde_json::to_string(&ProductDetails::default()).unwrap()
            );
            assert_eq!(String::from_utf8(body).unwrap(), expected);
        }
        _ => panic!("expected a JSON response"),
    }
}

#[test]
fn product_failure_is_502_with_its_message() {
    let r = product_response(Err(FetchError::NonFlipkartDomain));
    match r {
        HttpResponse::Json { status, body } => {
            assert_eq!(status, 502);
            assert_eq!(
                String::from_utf8(body).unwrap(),
                r#"{"error":{"error_message":"Only flipkart.com domain is supported"}}"#
            );
        }
        _ => panic!("expected a JSON response"),
    }
}
