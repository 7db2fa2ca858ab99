//! The collaborator boundary: the scraper's result and error types pass
//! through here opaquely. A successful result is serialized to JSON (a
//! failure to do so is this service's own fault, never the collaborator's),
//! and a collaborator failure carries its message into the 502 envelope.

use vstd::prelude::*;
use crate::api::{Downstream, downstream_response};
use crate::envelope::{HttpResponse, HttpResponseV, error_envelope, data_envelope,
    internal_error_body};
use flipkart_scraper::{ProductSearch, ProductDetails};
use flipkart_scraper::search::errors::SearchError;
use flipkart_scraper::product_details::errors::FetchError;

verus! {

/// One search hit, as the scraper's `SearchResult` type; opaque here.
#[verifier::external_type_specification]
#[verifier::external_body]
pub struct ExSearchResult(flipkart_scraper::search::SearchResult);

/// The search collaborator's result, the scraper's `ProductSearch` type.
#[verifier::external_type_specification]
#[verifier::external_body]
pub struct ExProductSearch(ProductSearch);

/// The product collaborator's result, the scraper's `ProductDetails` type.
#[verifier::external_type_specification]
#[verifier::external_body]
pub struct ExProductDetails(ProductDetails);

/// The search collaborator's failure, the scraper's `SearchError` type.
#[verifier::external_type_specification]
#[verifier::external_body]
pub struct ExSearchError(SearchError);

/// The product collaborator's failure, the scraper's `FetchError` type.
#[verifier::external_type_specification]
#[verifier::external_body]
pub struct ExFetchError(FetchError);

/// Relies on serde_json::to_vec to serialize a search result, and on
/// serde_json::Error's message for the failure text.
#[verifier::external_body]
fn search_to_json(s: &ProductSearch) -> (r: Result<Vec<u8>, String>) {
    serde_json::to_vec(s).map_err(|e| e.to_string())
}

/// Relies on serde_json::to_vec to serialize product details, and on
/// serde_json::Error's message for the failure text.
#[verifier::external_body]
fn product_to_json(d: &ProductDetails) -> (r: Result<Vec<u8>, String>) {
    serde_json::to_vec(d).map_err(|e| e.to_string())
}

/// Relies on the search error's Display impl for its message.
#[verifier::external_body]
fn search_error_text(e: &SearchError) -> (r: String) {
    e.to_string()
}

/// Relies on the fetch error's Display impl for its message.
#[verifier::external_body]
fn fetch_error_text(e: &FetchError) -> (r: String) {
    e.to_string()
}

/// A `502` carrying some error envelope without further details.
pub open spec fn is_bad_gateway(r: HttpResponseV) -> bool {
    r matches HttpResponseV::Json { status, body } && status == 502 && exists|m: Seq<u8>|
        body == error_envelope(m, None)
}

/// A `200` carrying the data envelope around some serialized value.
pub open spec fn is_data_response(r: HttpResponseV) -> bool {
    r matches HttpResponseV::Json { status, body } && status == 200 && exists|j: Seq<u8>|
        body == data_envelope(j)
}

/// A `500` carrying the internal-error envelope.
pub open spec fn is_internal_error(r: HttpResponseV) -> bool {
    r matches HttpResponseV::Json { status, body } && status == 500 && exists|m: Seq<u8>|
        body == internal_error_body(m)
}

/// Classify a search collaborator's outcome: a failure keeps its message,
/// a success is serialized, and only a serialization failure of this
/// service's own is reported as such.
pub fn search_outcome(res: Result<ProductSearch, SearchError>) -> (d: Downstream)
    ensures
        (res is Err) == (d is CollabFailed),
        res is Ok ==> (d is Data || d is EncodeFailed),
{
    match res {
        Ok(ps) => match search_to_json(&ps) {
            Ok(j) => Downstream::Data(j),
            Err(m) => Downstream::EncodeFailed(m),
        },
        Err(e) => Downstream::CollabFailed(search_error_text(&e)),
    }
}

/// Classify a product collaborator's outcome, as `search_outcome` does.
pub fn product_outcome(res: Result<ProductDetails, FetchError>) -> (d: Downstream)
    ensures
        (res is Err) == (d is CollabFailed),
        res is Ok ==> (d is Data || d is EncodeFailed),
{
    match res {
        Ok(pd) => match product_to_json(&pd) {
            Ok(j) => Downstream::Data(j),
            Err(m) => Downstream::EncodeFailed(m),
        },
        Err(e) => Downstream::CollabFailed(fetch_error_text(&e)),
    }
}

/// The whole response for a search collaborator's outcome: a collaborator
/// failure is always a `502` whose envelope carries an error, and a
/// success is either the `200` data envelope or, when serialization
/// fails, a `500` — never a `200` with a malformed body.
pub fn search_response(res: Result<ProductSearch, SearchError>) -> (r: HttpResponse)
    ensures
        res is Err ==> is_bad_gateway(r@),
        res is Ok ==> is_data_response(r@) || is_internal_error(r@),
{
    let d = search_outcome(res);
    downstream_response(&d)
}

/// The whole response for a product collaborator's outcome, as
/// `search_response` builds it.
pub fn product_response(res: Result<ProductDetails, FetchError>) -> (r: HttpResponse)
    ensures
        res is Err ==> is_bad_gateway(r@),
        res is Ok ==> is_data_response(r@) || is_internal_error(r@),
{
    let d = product_outcome(res);
    downstream_response(&d)
}

} // verus!
