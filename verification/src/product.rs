//! The product orchestrator's binding half: reconstruct an absolute
//! product URL from the path-embedded relative fragment and the query
//! parameters, and validate it before any collaborator is invoked. A
//! malformed fragment is a binding error, not a downstream error.

use vstd::prelude::*;
use vstd::string::StringExecFns;
use crate::bytes::{lit, spec_contains_byte, contains_byte, push_all};
use crate::percent::{form_encode, push_form_encoded};
use crate::envelope::ApiError;

verus! {

/// The fixed origin that product fragments are appended to.
pub open spec fn base_origin() -> Seq<u8> {
    lit("https://www.flipkart.com")
}

/// One parameter as query text: `key=value`, both form-encoded.
pub open spec fn render_pair(p: (Seq<u8>, Seq<u8>)) -> Seq<u8> {
    form_encode(p.0) + seq!['=' as u8] + form_encode(p.1)
}

/// The query text of the parameters after the first: each preceded by `&`.
pub open spec fn render_tail(pairs: Seq<(Seq<u8>, Seq<u8>)>) -> Seq<u8>
    decreases pairs.len(),
{
    if pairs.len() == 0 {
        Seq::<u8>::empty()
    } else {
        seq!['&' as u8] + render_pair(pairs.first()) + render_tail(pairs.drop_first())
    }
}

/// The query text of a parameter mapping: pairs joined with `&`.
pub open spec fn render_query(pairs: Seq<(Seq<u8>, Seq<u8>)>) -> Seq<u8> {
    if pairs.len() == 0 {
        Seq::<u8>::empty()
    } else {
        render_pair(pairs.first()) + render_tail(pairs.drop_first())
    }
}

/// The absolute product URL: the base origin, a slash, the fragment, and
/// the parameters merged into its query string. When the fragment already
/// carries a query string the parameters are appended to it, never
/// discarded.
pub open spec fn product_url_text(
    base: Seq<u8>,
    fragment: Seq<u8>,
    pairs: Seq<(Seq<u8>, Seq<u8>)>,
) -> Seq<u8> {
    let u = base + lit("/") + fragment;
    if pairs.len() == 0 {
        u
    } else if spec_contains_byte(fragment, '?' as u8) {
        u + seq!['&' as u8] + render_query(pairs)
    } else {
        u + seq!['?' as u8] + render_query(pairs)
    }
}

/// Whether the `url` crate accepts this byte string as an absolute URL.
pub uninterp spec fn url_ok(s: Seq<u8>) -> bool;

/// Relies on `url::Url::parse`: whether it accepts a piece of text is a
/// function of the text alone. Bytes that are not UTF-8 are no URL.
#[verifier::external_body]
fn url_is_valid(s: &[u8]) -> (r: bool)
    ensures
        r == url_ok(s@),
{
    match core::str::from_utf8(s) {
        Ok(t) => url::Url::parse(t).is_ok(),
        Err(_) => false,
    }
}

/// Append the query text of `pairs` to `out`.
fn push_query(out: &mut Vec<u8>, pairs: &Vec<(Vec<u8>, Vec<u8>)>)
    requires
        pairs@.len() > 0,
    ensures
        final(out)@ == old(out)@ + render_query(pairs.deep_view()),
{
    let ghost pv = pairs.deep_view();
    let ghost start = old(out)@;
    push_form_encoded(out, pairs[0].0.as_slice());
    out.push('=' as u8);
    push_form_encoded(out, pairs[0].1.as_slice());
    proof {
        assert(pv[0] == (pairs@[0].0@, pairs@[0].1@));
        assert(out@ =~= start + render_pair(pv.first()));
    }
    let mut i: usize = 1;
    while i < pairs.len()
        invariant
            1 <= i <= pairs@.len(),
            pv == pairs.deep_view(),
            pv.len() == pairs@.len(),
            start + render_query(pv) == out@ + render_tail(pv.skip(i as int)),
        decreases pairs@.len() - i,
    {
        proof {
            assert(pv.skip(1) =~= pv.drop_first());
            assert(pv.skip(i as int).first() == pv[i as int]);
            assert(pv.skip(i as int).drop_first() =~= pv.skip(i + 1));
            assert(pv[i as int] == (pairs@[i as int].0@, pairs@[i as int].1@));
        }
        let ghost before = out@;
        out.push('&' as u8);
        push_form_encoded(out, pairs[i].0.as_slice());
        out.push('=' as u8);
        push_form_encoded(out, pairs[i].1.as_slice());
        proof {
            assert(out@ =~= before + (seq!['&' as u8] + render_pair(pv[i as int])));
            assert(before + (seq!['&' as u8] + render_pair(pv[i as int])) + render_tail(
                pv.skip(i + 1),
            ) =~= before + render_tail(pv.skip(i as int)));
        }
        i = i + 1;
    }
    proof {
        assert(pv.skip(1) =~= pv.drop_first());
        assert(pv.skip(pv.len() as int) =~= Seq::<(Seq<u8>, Seq<u8>)>::empty());
        assert(render_tail(Seq::<(Seq<u8>, Seq<u8>)>::empty()) =~= Seq::<u8>::empty());
        assert(out@ + Seq::<u8>::empty() =~= out@);
    }
}

/// Build the absolute product URL text for a fragment and parameters.
pub fn build_product_url(base: &[u8], fragment: &[u8], pairs: &Vec<(Vec<u8>, Vec<u8>)>) -> (u: Vec<
    u8,
>)
    ensures
        u@ == product_url_text(base@, fragment@, pairs.deep_view()),
{
    let mut out: Vec<u8> = Vec::new();
    push_all(&mut out, base);
    push_all(&mut out, "/".as_bytes());
    push_all(&mut out, fragment);
    proof {
        assert(out@ =~= base@ + lit("/") + fragment@);
    }
    if pairs.len() > 0 {
        if contains_byte(fragment, '?' as u8) {
            out.push('&' as u8);
        } else {
            out.push('?' as u8);
        }
        let ghost mid = out@;
        push_query(&mut out, pairs);
        proof {
            let u = base@ + lit("/") + fragment@;
            if spec_contains_byte(fragment@, '?' as u8) {
                assert(mid =~= u + seq!['&' as u8]);
            } else {
                assert(mid =~= u + seq!['?' as u8]);
            }
        }
    }
    out
}

/// Reconstruct and validate the absolute product URL. `Ok` holds exactly
/// the reconstructed text, and comes if and only if the `url` crate
/// accepts that text; otherwise the binding error says the URL is invalid.
pub fn product_url(base: &[u8], fragment: &[u8], pairs: &Vec<(Vec<u8>, Vec<u8>)>) -> (r: Result<
    Vec<u8>,
    ApiError,
>)
    ensures
        (r is Ok) == url_ok(product_url_text(base@, fragment@, pairs.deep_view())),
        r matches Ok(u) ==> u@ == product_url_text(base@, fragment@, pairs.deep_view()),
        r matches Err(e) ==> e.error_message@ == "Invalid URL"@ && e.more_details is None,
{
    let u = build_product_url(base, fragment, pairs);
    if url_is_valid(u.as_slice()) {
        Ok(u)
    } else {
        Err(ApiError::new(String::from_str("Invalid URL")))
    }
}

/// The parameter mapping is never silently dropped: the reconstructed URL
/// is the base origin, a slash and the fragment, and, when there are any
/// parameters, their whole rendered query text follows, joined on to an
/// existing query string with `&` and opened with `?` otherwise.
pub proof fn lemma_lookup_url_shape(base: Seq<u8>, f: Seq<u8>, p: Seq<(Seq<u8>, Seq<u8>)>)
    ensures
        p.len() == 0 ==> product_url_text(base, f, p) == base + lit("/") + f,
        p.len() > 0 && spec_contains_byte(f, '?' as u8) ==> product_url_text(base, f, p) == base
            + lit("/") + f + seq!['&' as u8] + render_query(p),
        p.len() > 0 && !spec_contains_byte(f, '?' as u8) ==> product_url_text(base, f, p) == base
            + lit("/") + f + seq!['?' as u8] + render_query(p),
{
}

} // verus!
