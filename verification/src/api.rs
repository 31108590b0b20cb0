//! The HTTP-facing edge of the library: the endpoint URL, the
//! content-type test that decides whether a response body is
//! pretty-printed, and the pretty-printing itself.
//!
//! The network call is not made here; callers hand in the response
//! body and content type as plain strings.

use vstd::prelude::*;
use vstd::string::*;
use crate::text::str_eq;

verus! {

/// The pretty-printed form of a JSON text, as jsonxf renders it:
/// two-space indents, line-feed newlines, no trailing whitespace.
pub uninterp spec fn pretty_json_of(s: Seq<char>) -> Seq<char>;

/// Relies on jsonxf::pretty_print: the result depends on the input
/// characters alone, and the call always succeeds — it reads from a
/// byte slice and writes to a byte vector, neither of which can fail,
/// and its output is valid UTF-8 whenever the input is, since the
/// formatter only inserts or removes ASCII whitespace around
/// structural ASCII bytes.
#[verifier::external_body]
fn jsonxf_pretty_print(s: &str) -> (r: Result<String, String>)
    ensures
        r is Ok,
        r matches Ok(p) ==> p@ == pretty_json_of(s@),
{
    jsonxf::pretty_print(s)
}

/// The default server to send queries to.
pub fn default_server() -> (r: &'static str)
    ensures
        r@ == "https://overpass-api.de"@,
{
    "https://overpass-api.de"
}

/// The interpreter endpoint on the given server.
pub fn endpoint_url(server: &str) -> (r: String)
    ensures
        r@ == server@ + "/api/interpreter"@,
{
    let mut s = String::new();
    s.append(server);
    s.append("/api/interpreter");
    proof {
        assert(s@ =~= server@ + "/api/interpreter"@);
    }
    s
}

/// Whether a response with this content type is JSON and should be
/// pretty-printed.
pub fn is_json_content_type(content_type: &str) -> (r: bool)
    ensures
        r == (content_type@ == "application/json"@),
{
    str_eq(content_type, "application/json")
}

/// The response body as it is printed: a JSON body is pretty-printed
/// and given a trailing newline; any other body passes through
/// unchanged. The pretty-printer never fails, so the result is always
/// `Ok`; the `Result` keeps the shape a caller that propagates errors
/// expects.
pub fn format_response(content_type: &str, body: String) -> (r: Result<String, String>)
    ensures
        content_type@ != "application/json"@ ==> (r matches Ok(b) && b@ == body@),
        content_type@ == "application/json"@ ==> (r matches Ok(b) && b@ == pretty_json_of(
            body@,
        ) + "\n"@),
{
    if is_json_content_type(content_type) {
        match jsonxf_pretty_print(body.as_str()) {
            Ok(pretty) => {
                let mut out = pretty;
                out.append("\n");
                Ok(out)
            },
            Err(e) => Err(e),
        }
    } else {
        Ok(body)
    }
}

} // verus!
