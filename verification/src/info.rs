//! The service-description document served at the root path, built from
//! configuration resolved once at startup.

use vstd::prelude::*;
use crate::bytes::{lit, push_all};
use crate::envelope::{string_bytes, json_string, push_json_string};

verus! {

/// Process-wide read-only configuration: what the root document says about
/// the service, the deployment URL its usage hints point at, and the base
/// origin that product fragments are appended to.
pub struct ServiceConfig {
    pub name: String,
    pub description: String,
    pub version: String,
    pub authors: String,
    pub repository: String,
    pub license: String,
    pub deploy_url: String,
    pub base_origin: Vec<u8>,
}

/// The root document: the service's description fields and the usage
/// hints for the two APIs, as one JSON object.
pub open spec fn info_json(c: ServiceConfig) -> Seq<u8> {
    lit("{\"name\":") + json_string(string_bytes(c.name)) + lit(",\"description\":") + json_string(
        string_bytes(c.description),
    ) + lit(",\"version\":") + json_string(string_bytes(c.version)) + lit(",\"authors\":")
        + json_string(string_bytes(c.authors)) + lit(",\"repository\":") + json_string(
        string_bytes(c.repository),
    ) + lit(",\"license\":") + json_string(string_bytes(c.license)) + lit(
        ",\"usage\":{\"search_api\":",
    ) + json_string(string_bytes(c.deploy_url) + lit("/search/{product_name}")) + lit(
        ",\"product_api\":",
    ) + json_string(string_bytes(c.deploy_url) + lit("/product/{product_link_argument}")) + lit(
        "}}",
    )
}

/// Render the root document.
pub fn info_body(c: &ServiceConfig) -> (r: Vec<u8>)
    ensures
        r@ == info_json(*c),
{
    let mut out: Vec<u8> = Vec::new();
    push_all(&mut out, "{\"name\":".as_bytes());
    push_json_string(&mut out, c.name.as_str().as_bytes());
    push_all(&mut out, ",\"description\":".as_bytes());
    push_json_string(&mut out, c.description.as_str().as_bytes());
    push_all(&mut out, ",\"version\":".as_bytes());
    push_json_string(&mut out, c.version.as_str().as_bytes());
    push_all(&mut out, ",\"authors\":".as_bytes());
    push_json_string(&mut out, c.authors.as_str().as_bytes());
    push_all(&mut out, ",\"repository\":".as_bytes());
    push_json_string(&mut out, c.repository.as_str().as_bytes());
    push_all(&mut out, ",\"license\":".as_bytes());
    push_json_string(&mut out, c.license.as_str().as_bytes());
    push_all(&mut out, ",\"usage\":{\"search_api\":".as_bytes());
    let mut search_api: Vec<u8> = Vec::new();
    push_all(&mut search_api, c.deploy_url.as_str().as_bytes());
    push_all(&mut search_api, "/search/{product_name}".as_bytes());
    push_json_string(&mut out, search_api.as_slice());
    push_all(&mut out, ",\"product_api\":".as_bytes());
    let mut product_api: Vec<u8> = Vec::new();
    push_all(&mut product_api, c.deploy_url.as_str().as_bytes());
    push_all(&mut product_api, "/product/{product_link_argument}".as_bytes());
    push_json_string(&mut out, product_api.as_slice());
    push_all(&mut out, "}}".as_bytes());
    proof {
        assert(search_api@ =~= string_bytes(c.deploy_url) + lit("/search/{product_name}"));
        assert(product_api@ =~= string_bytes(c.deploy_url) + lit("/product/{product_link_argument}"));
        assert(out@ =~= info_json(*c));
    }
    out
}

} // verus!
