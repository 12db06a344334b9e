//! Framing of the three response shapes: not found, directory, file.

use vstd::prelude::*;
use crate::mime::{extension_or_empty, get_mime, mime_of};
use crate::text::{push_all, push_str_chars, string_from_chars, chars_of};

verus! {

/// The line terminator of the status line and the header lines.
pub open spec fn crlf() -> Seq<char> {
    seq!['\r', '\n']
}

/// The decimal digit for `d < 10`.
pub open spec fn digit(d: nat) -> char {
    ((48 + d) as u8) as char
}

/// The decimal form of `n`, without leading zeros.
pub open spec fn decimal(n: nat) -> Seq<char>
    decreases n,
{
    if n < 10 {
        seq![digit(n)]
    } else {
        decimal(n / 10) + seq![digit(n % 10)]
    }
}

/// Status line, content type (always with a UTF-8 charset), content length
/// and the blank line that ends the head.
pub open spec fn response_head(status: Seq<char>, content_type: Seq<char>, len: nat) -> Seq<
    char,
> {
    status + crlf() + "Content-Type: "@ + content_type + "; charset=UTF-8"@ + crlf()
        + "Content-Length: "@ + decimal(len) + crlf() + crlf()
}

/// Appends the decimal form of `n` to `out`.
pub fn push_decimal(out: &mut Vec<char>, n: u64)
    ensures
        final(out)@ == old(out)@ + decimal(n as nat),
    decreases n,
{
    if n >= 10 {
        push_decimal(out, n / 10);
    }
    let d: u8 = (n % 10) as u8;
    out.push((48 + d) as char);
}

/// The decimal form of `n`.
pub fn decimal_string(n: u64) -> (r: String)
    ensures
        r@ == decimal(n as nat),
{
    let mut out: Vec<char> = Vec::new();
    push_decimal(&mut out, n);
    assert(out@ =~= decimal(n as nat));
    string_from_chars(&out)
}

fn push_head(out: &mut Vec<char>, status: &str, content_type: &str, len: u64)
    ensures
        final(out)@ == old(out)@ + response_head(status@, content_type@, len as nat),
{
    let ghost start = out@;
    let eol = chars_of("\r\n");
    proof {
        reveal_strlit("\r\n");
        assert(eol@ =~= crlf());
    }
    push_str_chars(out, status);
    push_all(out, &eol);
    push_str_chars(out, "Content-Type: ");
    push_str_chars(out, content_type);
    push_str_chars(out, "; charset=UTF-8");
    push_all(out, &eol);
    push_str_chars(out, "Content-Length: ");
    push_decimal(out, len);
    push_all(out, &eol);
    push_all(out, &eol);
    assert(out@ =~= start + response_head(status@, content_type@, len as nat));
}

/// The whole 404 response: an HTML content type, zero length, no body.
pub fn not_found_response() -> (r: String)
    ensures
        r@ == response_head("HTTP/1.1 404 NOT FOUND"@, "text/html"@, 0),
{
    let mut out: Vec<char> = Vec::new();
    push_head(&mut out, "HTTP/1.1 404 NOT FOUND", "text/html", 0);
    assert(out@ =~= response_head("HTTP/1.1 404 NOT FOUND"@, "text/html"@, 0));
    string_from_chars(&out)
}

/// The whole 200 response for a directory: the listing page as an HTML
/// body, its length in UTF-8 bytes as the content length, and a line
/// terminator after the body.
pub fn directory_response(listing: &str) -> (r: String)
    ensures
        r@ == response_head("HTTP/1.1 200 OK"@, "text/html"@, listing.len() as nat) + listing@
            + crlf(),
{
    let mut out: Vec<char> = Vec::new();
    let len = listing.len();
    push_head(&mut out, "HTTP/1.1 200 OK", "text/html", len as u64);
    push_str_chars(&mut out, listing);
    push_str_chars(&mut out, "\r\n");
    proof {
        reveal_strlit("\r\n");
        assert(out@ =~= response_head("HTTP/1.1 200 OK"@, "text/html"@, listing.len() as nat)
            + listing@ + crlf());
    }
    string_from_chars(&out)
}

/// The content length for a file whose size is `size`, if it could be read.
pub open spec fn file_length(size: Option<u64>) -> nat {
    match size {
        Some(n) => n as nat,
        None => 0,
    }
}

/// The head of the 200 response for the file at `path`: the content type
/// from its extension and its size (zero where the size is unknown). The
/// file's bytes follow it unchanged.
pub fn file_response_head(path: &str, size: Option<u64>) -> (r: String)
    ensures
        r@ == response_head(
            "HTTP/1.1 200 OK"@,
            mime_of(extension_or_empty(path@)),
            file_length(size),
        ),
{
    let mime = get_mime(path);
    let len: u64 = match size {
        Some(n) => n,
        None => 0,
    };
    let mut out: Vec<char> = Vec::new();
    push_head(&mut out, "HTTP/1.1 200 OK", mime.as_str(), len);
    assert(out@ =~= response_head(
        "HTTP/1.1 200 OK"@,
        mime_of(extension_or_empty(path@)),
        file_length(size),
    ));
    string_from_chars(&out)
}

} // verus!
