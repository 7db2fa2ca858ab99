//! The request-handling layer: one step function from a request's path and
//! raw query string to either a finished response or the one collaborator
//! call to make, and one function from the collaborator's outcome to the
//! finished response. The caller performs the network call in between;
//! everything this layer decides is verified against `handle_plan`.

use vstd::prelude::*;
use vstd::string::StringExecFns;
use crate::bytes::lit;
use crate::envelope::{ApiError, HttpResponse, HttpResponseV, error_envelope, data_envelope,
    internal_error_body, string_bytes, bad_request, bad_gateway, success, internal_error,
    redirect_to_root};
use crate::route::{RouteV, Route, route_of, match_route};
use crate::query::{parse_query, parse_query_exec};
use crate::demo::{greeting_of, greeting, world_text, world_greeting, mir_text, mir_greeting,
    wave_text, wave_greeting};
use crate::info::{ServiceConfig, info_json, info_body};
use crate::product::{product_url_text, url_ok, product_url};

verus! {

/// The body sent when the query string cannot be decomposed into
/// key/value pairs.
pub open spec fn invalid_params_body() -> Seq<u8> {
    error_envelope(
        lit("Invalid query parameters"),
        Some(lit("malformed percent-encoding in query parameters")),
    )
}

/// The body sent when the reconstructed product URL is not a valid URL.
pub open spec fn invalid_url_body() -> Seq<u8> {
    error_envelope(lit("Invalid URL"), None)
}

/// What the layer decides for one request: answer at once, or make
/// exactly one collaborator call.
pub enum Step {
    /// The response is already determined; no collaborator is invoked.
    Respond(HttpResponse),
    /// Call the search collaborator with this query text and mapping.
    CallSearch { query: Vec<u8>, params: Vec<(Vec<u8>, Vec<u8>)> },
    /// Call the product-detail collaborator with this absolute URL.
    CallProduct { url: Vec<u8> },
}

/// The mathematical shape of a `Step`.
pub enum StepV {
    Respond(HttpResponseV),
    CallSearch { query: Seq<u8>, params: Seq<(Seq<u8>, Seq<u8>)> },
    CallProduct { url: Seq<u8> },
}

impl View for Step {
    type V = StepV;

    open spec fn view(&self) -> StepV {
        match self {
            Step::Respond(r) => StepV::Respond(r@),
            Step::CallSearch { query, params } => StepV::CallSearch {
                query: query@,
                params: params.deep_view(),
            },
            Step::CallProduct { url } => StepV::CallProduct { url: url@ },
        }
    }
}

/// What `handle_request` does, written out: route the path, bind the
/// query, and either answer (info, demo texts, binding errors, the
/// redirect for unmatched paths) or name the one collaborator call.
pub open spec fn handle_plan(c: ServiceConfig, path: Seq<u8>, rawq: Seq<u8>) -> StepV {
    match route_of(path) {
        RouteV::Info => StepV::Respond(
            HttpResponseV::Json { status: 200u16, body: info_json(c) },
        ),
        RouteV::Greet => match parse_query(rawq) {
            Some(pairs) => StepV::Respond(
                HttpResponseV::Text { status: 200u16, body: greeting_of(pairs) },
            ),
            None => StepV::Respond(
                HttpResponseV::Json { status: 400u16, body: invalid_params_body() },
            ),
        },
        RouteV::HelloWorld => StepV::Respond(
            HttpResponseV::Text { status: 200u16, body: world_text() },
        ),
        RouteV::HelloMir => StepV::Respond(
            HttpResponseV::Text { status: 200u16, body: mir_text() },
        ),
        RouteV::Wave { name, age } => StepV::Respond(
            HttpResponseV::Text { status: 200u16, body: wave_text(name, age) },
        ),
        RouteV::Search { query } => match parse_query(rawq) {
            Some(pairs) => StepV::CallSearch { query, params: pairs },
            None => StepV::Respond(
                HttpResponseV::Json { status: 400u16, body: invalid_params_body() },
            ),
        },
        RouteV::Product { fragment } => match parse_query(rawq) {
            Some(pairs) => {
                let u = product_url_text(c.base_origin@, fragment, pairs);
                if url_ok(u) {
                    StepV::CallProduct { url: u }
                } else {
                    StepV::Respond(
                        HttpResponseV::Json { status: 400u16, body: invalid_url_body() },
                    )
                }
            },
            None => StepV::Respond(
                HttpResponseV::Json { status: 400u16, body: invalid_params_body() },
            ),
        },
        RouteV::NotFound => StepV::Respond(
            HttpResponseV::Redirect { status: 308u16, location: lit("/") },
        ),
    }
}

/// The response for a malformed query string.
pub fn invalid_params_response() -> (r: HttpResponse)
    ensures
        r@ == (HttpResponseV::Json { status: 400u16, body: invalid_params_body() }),
{
    let e = ApiError {
        error_message: String::from_str("Invalid query parameters"),
        more_details: Some(String::from_str("malformed percent-encoding in query parameters")),
    };
    bad_request(&e)
}

/// Decide one request: the response where this layer alone decides, or
/// the single collaborator call to make.
pub fn handle_request(c: &ServiceConfig, path: &[u8], raw_query: &[u8]) -> (s: Step)
    ensures
        s@ == handle_plan(*c, path@, raw_query@),
{
    match match_route(path) {
        Route::Info => Step::Respond(
            HttpResponse::Json { status: 200, body: info_body(c) },
        ),
        Route::Greet => match parse_query_exec(raw_query) {
            Some(pairs) => Step::Respond(
                HttpResponse::Text { status: 200, body: greeting(&pairs) },
            ),
            None => Step::Respond(invalid_params_response()),
        },
        Route::HelloWorld => Step::Respond(
            HttpResponse::Text { status: 200, body: world_greeting() },
        ),
        Route::HelloMir => Step::Respond(
            HttpResponse::Text { status: 200, body: mir_greeting() },
        ),
        Route::Wave { name, age } => Step::Respond(
            HttpResponse::Text { status: 200, body: wave_greeting(name.as_slice(), age) },
        ),
        Route::Search { query } => match parse_query_exec(raw_query) {
            Some(pairs) => Step::CallSearch { query, params: pairs },
            None => Step::Respond(invalid_params_response()),
        },
        Route::Product { fragment } => match parse_query_exec(raw_query) {
            Some(pairs) => match product_url(c.base_origin.as_slice(), fragment.as_slice(), &pairs) {
                Ok(u) => Step::CallProduct { url: u },
                Err(e) => Step::Respond(bad_request(&e)),
            },
            None => Step::Respond(invalid_params_response()),
        },
        Route::NotFound => Step::Respond(redirect_to_root()),
    }
}

/// A collaborator call's outcome, as the caller reports it back: the
/// successful result already serialized to JSON, a result that could not
/// be serialized, or the collaborator's failure text.
pub enum Downstream {
    Data(Vec<u8>),
    EncodeFailed(String),
    CollabFailed(String),
}

/// Finish a collaborator call: `200` with the data envelope around a
/// serialized result, `500` when a successful result could not be
/// encoded (never `200` with a malformed body), and `502` carrying the
/// collaborator's message when the collaborator itself failed.
pub fn downstream_response(d: &Downstream) -> (r: HttpResponse)
    ensures
        d matches Downstream::Data(j) ==> r@ == (HttpResponseV::Json {
            status: 200u16,
            body: data_envelope(j@),
        }),
        d matches Downstream::EncodeFailed(m) ==> r@ == (HttpResponseV::Json {
            status: 500u16,
            body: internal_error_body(string_bytes(*m)),
        }),
        d matches Downstream::CollabFailed(m) ==> r@ == (HttpResponseV::Json {
            status: 502u16,
            body: error_envelope(string_bytes(*m), None),
        }),
{
    match d {
        Downstream::Data(j) => success(j.as_slice()),
        Downstream::EncodeFailed(m) => internal_error(m.as_str().as_bytes()),
        Downstream::CollabFailed(m) => bad_gateway(&ApiError::new(m.clone())),
    }
}

/// An unmatched path is answered with the permanent redirect to the root
/// path, with no JSON body; in particular the plan is never a
/// collaborator call.
pub proof fn lemma_unmatched_is_redirect(c: ServiceConfig, path: Seq<u8>, rawq: Seq<u8>)
    requires
        route_of(path) is NotFound,
    ensures
        handle_plan(c, path, rawq) == StepV::Respond(
            HttpResponseV::Redirect { status: 308u16, location: lit("/") },
        ),
        !(handle_plan(c, path, rawq) is CallSearch),
        !(handle_plan(c, path, rawq) is CallProduct),
{
}

/// A search request reaches the collaborator with exactly the query text
/// the route bound, empty included: the query is never absent or replaced.
pub proof fn lemma_search_query_exact(
    c: ServiceConfig,
    path: Seq<u8>,
    rawq: Seq<u8>,
    q: Seq<u8>,
)
    requires
        route_of(path) == (RouteV::Search { query: q }),
        parse_query(rawq) is Some,
    ensures
        handle_plan(c, path, rawq) == (StepV::CallSearch {
            query: q,
            params: parse_query(rawq).unwrap(),
        }),
{
}

/// A product request either reaches the collaborator with exactly the
/// reconstructed URL — the fragment appended to the base origin with the
/// whole parameter mapping merged into its query string — or, when that
/// text is no valid URL, stops as a binding error; the parameters are
/// never dropped.
pub proof fn lemma_product_call_exact(
    c: ServiceConfig,
    path: Seq<u8>,
    rawq: Seq<u8>,
    f: Seq<u8>,
)
    requires
        route_of(path) == (RouteV::Product { fragment: f }),
        parse_query(rawq) is Some,
    ensures
        url_ok(product_url_text(c.base_origin@, f, parse_query(rawq).unwrap()))
            ==> handle_plan(c, path, rawq) == (StepV::CallProduct {
            url: product_url_text(c.base_origin@, f, parse_query(rawq).unwrap()),
        }),
        !url_ok(product_url_text(c.base_origin@, f, parse_query(rawq).unwrap()))
            ==> handle_plan(c, path, rawq) == StepV::Respond(
            HttpResponseV::Json { status: 400u16, body: invalid_url_body() },
        ),
{
}

} // verus!
