//! Parsing of the request line.

use vstd::prelude::*;
use crate::path::{make_path, resolve};
use crate::text::{chars_of, same_chars, string_from_chars};

verus! {

/// Whether `c` has the Unicode `White_Space` property, as `char::is_whitespace`
/// reports it.
pub open spec fn is_white(c: char) -> bool {
    let u = c as u32;
    (0x09 <= u && u <= 0x0d) || u == 0x20 || u == 0x85 || u == 0xa0 || u == 0x1680 || (0x2000
        <= u && u <= 0x200a) || u == 0x2028 || u == 0x2029 || u == 0x202f || u == 0x205f || u
        == 0x3000
}

/// The first position at or after `i` that holds no white space (or the end).
pub open spec fn skip_white(s: Seq<char>, i: int) -> int
    decreases s.len() - i,
{
    if 0 <= i < s.len() && is_white(s[i]) {
        skip_white(s, i + 1)
    } else {
        i
    }
}

/// The first position at or after `i` that holds white space (or the end).
pub open spec fn token_end(s: Seq<char>, i: int) -> int
    decreases s.len() - i,
{
    if 0 <= i < s.len() && !is_white(s[i]) {
        token_end(s, i + 1)
    } else {
        i
    }
}

/// The first two white-space separated words of a line, if it has two.
pub open spec fn first_two_words(s: Seq<char>) -> Option<(Seq<char>, Seq<char>)> {
    let ms = skip_white(s, 0);
    let me = token_end(s, ms);
    let ts = skip_white(s, me);
    let te = token_end(s, ts);
    if ts < s.len() {
        Some((s.subrange(ms, me), s.subrange(ts, te)))
    } else {
        None
    }
}

/// Why a request line was refused.
#[derive(PartialEq, Eq, Structural, Debug, Clone, Copy)]
pub enum RequestError {
    /// The line holds fewer than two words.
    Malformed,
    /// The method is not `GET`.
    UnsupportedMethod,
}

/// A parsed request line.
pub struct Request {
    pub method: String,
    pub target: String,
}

/// What parsing the line `s` gives: the method and target of a `GET`
/// request, or the reason it is refused.
pub open spec fn parse_spec(s: Seq<char>) -> Result<(Seq<char>, Seq<char>), RequestError> {
    match first_two_words(s) {
        None => Err(RequestError::Malformed),
        Some(w) => if w.0 == "GET"@ {
            Ok(w)
        } else {
            Err(RequestError::UnsupportedMethod)
        },
    }
}

fn is_white_char(c: char) -> (r: bool)
    ensures
        r == is_white(c),
{
    let u = c as u32;
    (0x09 <= u && u <= 0x0d) || u == 0x20 || u == 0x85 || u == 0xa0 || u == 0x1680 || (0x2000
        <= u && u <= 0x200a) || u == 0x2028 || u == 0x2029 || u == 0x202f || u == 0x205f || u
        == 0x3000
}

fn skip_white_from(v: &Vec<char>, i: usize) -> (r: usize)
    requires
        i <= v@.len(),
    ensures
        r as int == skip_white(v@, i as int),
        i <= r <= v@.len(),
{
    let mut j: usize = i;
    while j < v.len() && is_white_char(v[j])
        invariant
            i <= j <= v@.len(),
            skip_white(v@, i as int) == skip_white(v@, j as int),
        decreases v.len() - j,
    {
        j += 1;
    }
    j
}

fn token_end_from(v: &Vec<char>, i: usize) -> (r: usize)
    requires
        i <= v@.len(),
    ensures
        r as int == token_end(v@, i as int),
        i <= r <= v@.len(),
{
    let mut j: usize = i;
    while j < v.len() && !is_white_char(v[j])
        invariant
            i <= j <= v@.len(),
            token_end(v@, i as int) == token_end(v@, j as int),
        decreases v.len() - j,
    {
        j += 1;
    }
    j
}

fn string_between(v: &Vec<char>, a: usize, b: usize) -> (r: String)
    requires
        a <= b <= v@.len(),
    ensures
        r@ == v@.subrange(a as int, b as int),
{
    let mut out: Vec<char> = Vec::new();
    let mut k: usize = a;
    while k < b
        invariant
            a <= k <= b <= v@.len(),
            out@ == v@.subrange(a as int, k as int),
        decreases b - k,
    {
        out.push(v[k]);
        k += 1;
        proof {
            assert(out@ =~= v@.subrange(a as int, k as int));
        }
    }
    string_from_chars(&out)
}

/// Parses a request line: the first word is the method, the second the
/// target. Fewer than two words, or a method other than `GET`, is refused.
pub fn parse_request_line(line: &str) -> (r: Result<Request, RequestError>)
    ensures
        match r {
            Ok(req) => parse_spec(line@) == Ok::<(Seq<char>, Seq<char>), RequestError>(
                (req.method@, req.target@),
            ),
            Err(e) => parse_spec(line@) == Err::<(Seq<char>, Seq<char>), RequestError>(e),
        },
{
    let v = chars_of(line);
    let ms = skip_white_from(&v, 0);
    let me = token_end_from(&v, ms);
    let ts = skip_white_from(&v, me);
    let te = token_end_from(&v, ts);
    if ts >= v.len() {
        return Err(RequestError::Malformed);
    }
    let method = string_between(&v, ms, me);
    let target = string_between(&v, ts, te);
    let get = chars_of("GET");
    let m = chars_of(method.as_str());
    let same = same_chars(&m, &get);
    if same {
        Ok(Request { method, target })
    } else {
        Err(RequestError::UnsupportedMethod)
    }
}

/// Parses a request line and resolves its target against `base_dir` with
/// the host's separator; a refused line gives the reason.
pub fn request_path(line: &str, base_dir: &str) -> (r: Result<String, RequestError>)
    ensures
        match parse_spec(line@) {
            Ok(w) => r is Ok && (r->Ok_0@ == resolve(base_dir@, w.1, '/') || r->Ok_0@ == resolve(
                base_dir@,
                w.1,
                '\\',
            )),
            Err(e) => r == Err::<String, RequestError>(e),
        },
{
    match parse_request_line(line) {
        Ok(req) => Ok(make_path(base_dir, req.target.as_str())),
        Err(e) => Err(e),
    }
}

} // verus!
