//! HTTP response framing.
//!
//! The server sends exactly one message per connection: a status line, a
//! content-type header, a content-length header sized to the body's UTF-8
//! byte length, a blank line, and the body. [`build_response`] produces that
//! buffer, pinned byte for byte by [`http_response_text`]; together with
//! [`crate::page::render_page`] the whole buffer is a pure function of the
//! project list, which [`lemma_response_deterministic`] states.

use crate::numeral::dec_digits;
use crate::page::Project;
use crate::page::page_text;
use vstd::prelude::*;
use vstd::string::StrSliceExecFns;
use vstd::string::StringExecFns;
use vstd::utf8::encode_utf8;

verus! {

/// The number the content-length header carries: the body's UTF-8 byte length.
pub open spec fn content_length(body: Seq<char>) -> nat {
    encode_utf8(body).len()
}

/// The full response for `body`: status line, headers, blank line, body.
pub open spec fn http_response_text(body: Seq<char>) -> Seq<char> {
    "HTTP/1.1 200 OK\nContent-Type: text/html; charset=UTF-8\nContent-Length: "@
        + dec_digits(content_length(body)) + "\n\n"@ + body
}

/// Frames `body` as the single response buffer the server will serve.
pub fn build_response(body: &String) -> (r: String)
    ensures
        r@ == http_response_text(body@),
{
    let bytes: Vec<u8> = body.as_str().as_bytes_vec();
    let len: usize = bytes.len();
    let len_str = crate::numeral::usize_to_decimal(len);
    let mut r = String::from_str(
        "HTTP/1.1 200 OK\nContent-Type: text/html; charset=UTF-8\nContent-Length: ",
    );
    r.append(len_str.as_str());
    r.append("\n\n");
    r.append(body.as_str());
    r
}

/// Renders the page for `projects` and frames it as a response buffer.
pub fn build_page_response(projects: &Vec<Project>) -> (r: String)
    ensures
        r@ == http_response_text(page_text(projects@)),
{
    let body = crate::page::render_page(projects);
    build_response(&body)
}

/// Building the response is idempotent: any two buffers built from equal
/// project lists are byte-identical, whenever and however often the builder
/// runs.
pub proof fn lemma_response_deterministic(
    projects_a: Seq<Project>,
    projects_b: Seq<Project>,
    buffer_a: Seq<char>,
    buffer_b: Seq<char>,
)
    requires
        projects_a == projects_b,
        buffer_a == http_response_text(page_text(projects_a)),
        buffer_b == http_response_text(page_text(projects_b)),
    ensures
        buffer_a == buffer_b,
{
}

} // verus!
