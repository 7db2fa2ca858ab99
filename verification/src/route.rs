//! The route matcher: deterministic dispatch from the raw request path to
//! one logical operation, in a fixed priority order. Trailing captures are
//! percent-decoded here (segment separators inside them are kept), and a
//! capture that fails to decode leaves the route unmatched.

use vstd::prelude::*;
use crate::bytes::{lit, spec_starts_with, spec_contains_byte, split_first, split_first_exec,
    bytes_eq, slice_starts_with, contains_byte, tail_from, parse_u8, parse_u8_spec};
use crate::percent::{pct_decode, percent_decode};

verus! {

/// The mathematical shape of a matched route.
pub enum RouteV {
    /// The root path: the service-description document.
    Info,
    /// The bare greeting path, with options in the query string.
    Greet,
    /// The fixed English greeting path.
    HelloWorld,
    /// The fixed localized greeting path.
    HelloMir,
    /// A wave for `name`, `age` years old.
    Wave { name: Seq<u8>, age: u8 },
    /// A product search; the decoded trailing capture is the query text.
    Search { query: Seq<u8> },
    /// A product lookup; the decoded trailing capture is the relative URL.
    Product { fragment: Seq<u8> },
    /// No rule matched.
    NotFound,
}

/// The wave route: exactly two further segments, a name and a decimal age.
pub open spec fn wave_route(rest: Seq<u8>) -> RouteV {
    let name_raw = split_first(rest, '/' as u8).0;
    match split_first(rest, '/' as u8).1 {
        None => RouteV::NotFound,
        Some(age_raw) => if name_raw.len() == 0 || spec_contains_byte(age_raw, '/' as u8) {
            RouteV::NotFound
        } else {
            match (pct_decode(name_raw, false), pct_decode(age_raw, false)) {
                (Some(name), Some(age_bytes)) => match parse_u8_spec(age_bytes) {
                    Some(age) => RouteV::Wave { name, age },
                    None => RouteV::NotFound,
                },
                _ => RouteV::NotFound,
            }
        },
    }
}

/// A trailing capture, percent-decoded; `None` leaves the route unmatched.
pub open spec fn capture_of(path: Seq<u8>, prefix: Seq<u8>) -> Option<Seq<u8>> {
    pct_decode(path.skip(prefix.len() as int), false)
}

/// Which operation a raw request path selects. The rules are tried in
/// this order, and the first match wins:
/// the root, the literal greeting paths, the wave path, `search` with or
/// without a trailing capture, and `product` with a non-empty trailing
/// capture; everything else is left unmatched. A `product` path without a
/// capture is meaningless and deliberately falls through to `NotFound`.
pub open spec fn route_of(path: Seq<u8>) -> RouteV {
    if path == lit("") || path == lit("/") {
        RouteV::Info
    } else if path == lit("/hello") {
        RouteV::Greet
    } else if path == lit("/hello/world") {
        RouteV::HelloWorld
    } else if path == lit("/hello/%D0%BC%D0%B8%D1%80") {
        RouteV::HelloMir
    } else if spec_starts_with(path, lit("/wave/")) {
        wave_route(path.skip(lit("/wave/").len() as int))
    } else if path == lit("/search") || path == lit("/search/") {
        RouteV::Search { query: Seq::<u8>::empty() }
    } else if spec_starts_with(path, lit("/search/")) {
        match capture_of(path, lit("/search/")) {
            Some(q) => RouteV::Search { query: q },
            None => RouteV::NotFound,
        }
    } else if spec_starts_with(path, lit("/product/")) && path.len() > lit("/product/").len() {
        match capture_of(path, lit("/product/")) {
            Some(f) => RouteV::Product { fragment: f },
            None => RouteV::NotFound,
        }
    } else {
        RouteV::NotFound
    }
}

/// A matched route, carrying its decoded captures.
pub enum Route {
    Info,
    Greet,
    HelloWorld,
    HelloMir,
    Wave { name: Vec<u8>, age: u8 },
    Search { query: Vec<u8> },
    Product { fragment: Vec<u8> },
    NotFound,
}

impl View for Route {
    type V = RouteV;

    open spec fn view(&self) -> RouteV {
        match self {
            Route::Info => RouteV::Info,
            Route::Greet => RouteV::Greet,
            Route::HelloWorld => RouteV::HelloWorld,
            Route::HelloMir => RouteV::HelloMir,
            Route::Wave { name, age } => RouteV::Wave { name: name@, age: *age },
            Route::Search { query } => RouteV::Search { query: query@ },
            Route::Product { fragment } => RouteV::Product { fragment: fragment@ },
            Route::NotFound => RouteV::NotFound,
        }
    }
}

/// Match a raw request path against the route table.
pub fn match_route(path: &[u8]) -> (r: Route)
    ensures
        r@ == route_of(path@),
{
    if bytes_eq(path, "".as_bytes()) || bytes_eq(path, "/".as_bytes()) {
        return Route::Info;
    }
    if bytes_eq(path, "/hello".as_bytes()) {
        return Route::Greet;
    }
    if bytes_eq(path, "/hello/world".as_bytes()) {
        return Route::HelloWorld;
    }
    if bytes_eq(path, "/hello/%D0%BC%D0%B8%D1%80".as_bytes()) {
        return Route::HelloMir;
    }
    let wave_prefix = "/wave/".as_bytes();
    if slice_starts_with(path, wave_prefix) {
        let rest = tail_from(path, wave_prefix.len());
        let (name_raw, age_opt) = split_first_exec(rest.as_slice(), '/' as u8);
        match age_opt {
            None => {
                return Route::NotFound;
            },
            Some(age_raw) => {
                if name_raw.len() == 0 || contains_byte(age_raw.as_slice(), '/' as u8) {
                    return Route::NotFound;
                }
                let name_dec = percent_decode(name_raw.as_slice(), false);
                let age_dec = percent_decode(age_raw.as_slice(), false);
                match (name_dec, age_dec) {
                    (Some(name), Some(age_bytes)) => {
                        match parse_u8(age_bytes.as_slice()) {
                            Some(age) => {
                                return Route::Wave { name, age };
                            },
                            None => {
                                return Route::NotFound;
                            },
                        }
                    },
                    _ => {
                        return Route::NotFound;
                    },
                }
            },
        }
    }
    if bytes_eq(path, "/search".as_bytes()) || bytes_eq(path, "/search/".as_bytes()) {
        let query: Vec<u8> = Vec::new();
        assert(query@ =~= Seq::<u8>::empty());
        return Route::Search { query };
    }
    let search_prefix = "/search/".as_bytes();
    if slice_starts_with(path, search_prefix) {
        let cap = tail_from(path, search_prefix.len());
        match percent_decode(cap.as_slice(), false) {
            Some(q) => {
                return Route::Search { query: q };
            },
            None => {
                return Route::NotFound;
            },
        }
    }
    let product_prefix = "/product/".as_bytes();
    if slice_starts_with(path, product_prefix) && path.len() > product_prefix.len() {
        let cap = tail_from(path, product_prefix.len());
        match percent_decode(cap.as_slice(), false) {
            Some(f) => {
                return Route::Product { fragment: f };
            },
            None => {
                return Route::NotFound;
            },
        }
    }
    Route::NotFound
}

} // verus!
