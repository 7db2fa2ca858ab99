//! The uniform JSON response envelope: `{"data": ...}` on success and
//! `{"error": {"error_message": ..., "more_details": ...}}` on failure,
//! together with the HTTP status that each outcome carries.

use vstd::prelude::*;
use crate::bytes::{lit, push_all};

verus! {

/// A detailed error record carried inside the JSON error envelope.
#[derive(Debug)]
pub struct ApiError {
    pub error_message: String,
    pub more_details: Option<String>,
}

impl ApiError {
    /// Build an error record with a message and no further details.
    pub fn new(message: String) -> (r: ApiError)
        ensures
            r.error_message@ == message@,
            r.more_details is None,
    {
        ApiError { error_message: message, more_details: None }
    }
}

/// The UTF-8 bytes of a string value.
pub open spec fn string_bytes(s: String) -> Seq<u8> {
    vstd::utf8::encode_utf8(s@)
}

/// The lower-case hexadecimal digit for a value below 16.
pub open spec fn hex_lower_digit(n: u8) -> u8 {
    if n < 10 {
        ('0' as u8 + n) as u8
    } else {
        ('a' as u8 + n - 10) as u8
    }
}

/// How one byte is written inside a JSON string: quotes and backslashes
/// get a backslash escape, control bytes a short or `\u00xx` escape, and
/// every other byte stands for itself.
pub open spec fn json_escape_byte(b: u8) -> Seq<u8> {
    if b == '"' as u8 {
        seq!['\\' as u8, '"' as u8]
    } else if b == '\\' as u8 {
        seq!['\\' as u8, '\\' as u8]
    } else if b == 8 {
        seq!['\\' as u8, 'b' as u8]
    } else if b == 9 {
        seq!['\\' as u8, 't' as u8]
    } else if b == 10 {
        seq!['\\' as u8, 'n' as u8]
    } else if b == 12 {
        seq!['\\' as u8, 'f' as u8]
    } else if b == 13 {
        seq!['\\' as u8, 'r' as u8]
    } else if b < 32 {
        seq!['\\' as u8, 'u' as u8, '0' as u8, '0' as u8, hex_lower_digit(b / 16), hex_lower_digit(
            b % 16,
        )]
    } else {
        seq![b]
    }
}

/// The JSON escaping of a whole byte string.
pub open spec fn json_escape(s: Seq<u8>) -> Seq<u8>
    decreases s.len(),
{
    if s.len() == 0 {
        Seq::<u8>::empty()
    } else {
        json_escape_byte(s[0]) + json_escape(s.skip(1))
    }
}

/// A JSON string literal: the escaped bytes between double quotes.
pub open spec fn json_string(s: Seq<u8>) -> Seq<u8> {
    seq!['"' as u8] + json_escape(s) + seq!['"' as u8]
}

/// The `ErrorDetail` object: an `error_message`, and `more_details`
/// only when there are any.
pub open spec fn error_detail_json(msg: Seq<u8>, details: Option<Seq<u8>>) -> Seq<u8> {
    lit("{\"error_message\":") + json_string(msg) + (match details {
        Some(d) => lit(",\"more_details\":") + json_string(d),
        None => Seq::<u8>::empty(),
    }) + lit("}")
}

/// The whole error envelope.
pub open spec fn error_envelope(msg: Seq<u8>, details: Option<Seq<u8>>) -> Seq<u8> {
    lit("{\"error\":") + error_detail_json(msg, details) + lit("}")
}

/// The success envelope around an already-serialized JSON value.
pub open spec fn data_envelope(data: Seq<u8>) -> Seq<u8> {
    lit("{\"data\":") + data + lit("}")
}

/// The error envelope of an `ApiError` record.
pub open spec fn api_error_body(e: ApiError) -> Seq<u8> {
    error_envelope(
        string_bytes(e.error_message),
        match e.more_details {
            Some(d) => Some(string_bytes(d)),
            None => None,
        },
    )
}

/// Append the JSON escaping of `s` to `out`.
pub fn push_json_escaped(out: &mut Vec<u8>, s: &[u8])
    ensures
        final(out)@ == old(out)@ + json_escape(s@),
{
    let ghost start = old(out)@;
    let mut i: usize = 0;
    assert(s@.skip(0) =~= s@);
    while i < s.len()
        invariant
            0 <= i <= s@.len(),
            start + json_escape(s@) == out@ + json_escape(s@.skip(i as int)),
        decreases s@.len() - i,
    {
        let ghost pre = s@.skip(i as int);
        let b = s[i];
        assert(pre[0] == b);
        proof {
            assert(pre.skip(1) =~= s@.skip(i + 1));
        }
        let mut enc: Vec<u8> = Vec::new();
        if b == '"' as u8 {
            enc.push('\\' as u8);
            enc.push('"' as u8);
        } else if b == '\\' as u8 {
            enc.push('\\' as u8);
            enc.push('\\' as u8);
        } else if b == 8 {
            enc.push('\\' as u8);
            enc.push('b' as u8);
        } else if b == 9 {
            enc.push('\\' as u8);
            enc.push('t' as u8);
        } else if b == 10 {
            enc.push('\\' as u8);
            enc.push('n' as u8);
        } else if b == 12 {
            enc.push('\\' as u8);
            enc.push('f' as u8);
        } else if b == 13 {
            enc.push('\\' as u8);
            enc.push('r' as u8);
        } else if b < 32 {
            let hi = b / 16;
            let lo = b % 16;
            enc.push('\\' as u8);
            enc.push('u' as u8);
            enc.push('0' as u8);
            enc.push('0' as u8);
            enc.push(if hi < 10 {
                '0' as u8 + hi
            } else {
                'a' as u8 + hi - 10
            });
            enc.push(if lo < 10 {
                '0' as u8 + lo
            } else {
                'a' as u8 + lo - 10
            });
        } else {
            enc.push(b);
        }
        assert(enc@ =~= json_escape_byte(b));
        proof {
            assert((out@ + enc@) + json_escape(s@.skip(i + 1)) =~= out@ + (enc@ + json_escape(
                s@.skip(i + 1),
            )));
        }
        push_all(out, enc.as_slice());
        i = i + 1;
    }
    proof {
        assert(s@.skip(s@.len() as int) =~= Seq::<u8>::empty());
        assert(json_escape(Seq::<u8>::empty()) =~= Seq::<u8>::empty());
        assert(out@ + Seq::<u8>::empty() =~= out@);
    }
}

/// Append `s` as a JSON string literal to `out`.
pub fn push_json_string(out: &mut Vec<u8>, s: &[u8])
    ensures
        final(out)@ == old(out)@ + json_string(s@),
{
    out.push('"' as u8);
    push_json_escaped(out, s);
    out.push('"' as u8);
    proof {
        assert(old(out)@ + seq!['"' as u8] + json_escape(s@) + seq!['"' as u8] =~= old(out)@ + (
        seq!['"' as u8] + json_escape(s@) + seq!['"' as u8]));
    }
}

/// Render the error envelope for a message and optional details, as bytes.
pub fn error_body_bytes(msg: &[u8], details: Option<&[u8]>) -> (r: Vec<u8>)
    ensures
        r@ == error_envelope(
            msg@,
            match details {
                Some(d) => Some(d@),
                None => None,
            },
        ),
{
    let mut out: Vec<u8> = Vec::new();
    push_all(&mut out, "{\"error\":".as_bytes());
    push_all(&mut out, "{\"error_message\":".as_bytes());
    push_json_string(&mut out, msg);
    match details {
        Some(d) => {
            push_all(&mut out, ",\"more_details\":".as_bytes());
            push_json_string(&mut out, d);
        },
        None => {},
    }
    push_all(&mut out, "}".as_bytes());
    push_all(&mut out, "}".as_bytes());
    proof {
        let dv = match details {
            Some(d) => Some(d@),
            None => None::<Seq<u8>>,
        };
        assert(out@ =~= error_envelope(msg@, dv));
    }
    out
}

/// Render the error envelope of an `ApiError` record.
pub fn error_body(e: &ApiError) -> (r: Vec<u8>)
    ensures
        r@ == api_error_body(*e),
{
    match &e.more_details {
        Some(d) => error_body_bytes(
            e.error_message.as_str().as_bytes(),
            Some(d.as_str().as_bytes()),
        ),
        None => error_body_bytes(e.error_message.as_str().as_bytes(), None),
    }
}

/// Render the success envelope around serialized JSON data.
pub fn data_body(data: &[u8]) -> (r: Vec<u8>)
    ensures
        r@ == data_envelope(data@),
{
    let mut out: Vec<u8> = Vec::new();
    push_all(&mut out, "{\"data\":".as_bytes());
    push_all(&mut out, data);
    push_all(&mut out, "}".as_bytes());
    proof {
        assert(out@ =~= data_envelope(data@));
    }
    out
}

/// An HTTP response as this layer determines it: a JSON body with a
/// status, a plain-text body with a status, or a permanent redirect.
pub enum HttpResponse {
    Json { status: u16, body: Vec<u8> },
    Text { status: u16, body: Vec<u8> },
    Redirect { status: u16, location: Vec<u8> },
}

/// The mathematical shape of an `HttpResponse`.
pub enum HttpResponseV {
    Json { status: u16, body: Seq<u8> },
    Text { status: u16, body: Seq<u8> },
    Redirect { status: u16, location: Seq<u8> },
}

impl View for HttpResponse {
    type V = HttpResponseV;

    open spec fn view(&self) -> HttpResponseV {
        match self {
            HttpResponse::Json { status, body } => HttpResponseV::Json {
                status: *status,
                body: body@,
            },
            HttpResponse::Text { status, body } => HttpResponseV::Text {
                status: *status,
                body: body@,
            },
            HttpResponse::Redirect { status, location } => HttpResponseV::Redirect {
                status: *status,
                location: location@,
            },
        }
    }
}

/// `200` with the success envelope around `data`.
pub fn success(data: &[u8]) -> (r: HttpResponse)
    ensures
        r@ == (HttpResponseV::Json { status: 200u16, body: data_envelope(data@) }),
{
    HttpResponse::Json { status: 200, body: data_body(data) }
}

/// `400` with the error envelope of `e`: the client's request was malformed.
pub fn bad_request(e: &ApiError) -> (r: HttpResponse)
    ensures
        r@ == (HttpResponseV::Json { status: 400u16, body: api_error_body(*e) }),
{
    HttpResponse::Json { status: 400, body: error_body(e) }
}

/// `502` with the error envelope of `e`: the collaborator failed.
pub fn bad_gateway(e: &ApiError) -> (r: HttpResponse)
    ensures
        r@ == (HttpResponseV::Json { status: 502u16, body: api_error_body(*e) }),
{
    HttpResponse::Json { status: 502, body: error_body(e) }
}

/// The fixed text of the internal-error message.
pub open spec fn internal_error_body(detail: Seq<u8>) -> Seq<u8> {
    error_envelope(
        lit("Internal Server Error"),
        Some(
            lit("There was some internal server error. ") + detail + lit(
                ". Report any issues at https://github.com/dvishal485/flipkart-scraper-api",
            ),
        ),
    )
}

/// `500` with the internal-error envelope: this service failed to encode
/// an otherwise successful result.
pub fn internal_error(detail: &[u8]) -> (r: HttpResponse)
    ensures
        r@ == (HttpResponseV::Json { status: 500u16, body: internal_error_body(detail@) }),
{
    let mut d: Vec<u8> = Vec::new();
    push_all(&mut d, "There was some internal server error. ".as_bytes());
    push_all(&mut d, detail);
    push_all(
        &mut d,
        ". Report any issues at https://github.com/dvishal485/flipkart-scraper-api".as_bytes(),
    );
    let body = error_body_bytes("Internal Server Error".as_bytes(), Some(d.as_slice()));
    HttpResponse::Json { status: 500, body }
}

/// The permanent redirect to the root path that unmatched requests get.
pub fn redirect_to_root() -> (r: HttpResponse)
    ensures
        r@ == (HttpResponseV::Redirect { status: 308u16, location: lit("/") }),
{
    let mut loc: Vec<u8> = Vec::new();
    push_all(&mut loc, "/".as_bytes());
    proof {
        assert(Seq::<u8>::empty() + lit("/") =~= lit("/"));
    }
    HttpResponse::Redirect { status: 308, location: loc }
}

} // verus!
