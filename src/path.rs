//! Resolution of a request target against the base directory.

use vstd::prelude::*;
use crate::text::{chars_of, string_from_chars};

verus! {

/// `s` with every trailing `sep` removed.
pub open spec fn strip_trailing(s: Seq<char>, sep: char) -> Seq<char>
    decreases s.len(),
{
    if s.len() > 0 && s.last() == sep {
        strip_trailing(s.drop_last(), sep)
    } else {
        s
    }
}

/// `t` with every `/` replaced by `sep`.
pub open spec fn convert_separators(t: Seq<char>, sep: char) -> Seq<char> {
    t.map_values(|c: char| if c == '/' { sep } else { c })
}

/// The target after separator conversion, with an empty one read as the root.
pub open spec fn effective_target(target: Seq<char>, sep: char) -> Seq<char> {
    let t = convert_separators(target, sep);
    if t.len() == 0 {
        seq![sep]
    } else {
        t
    }
}

/// The path that `target` names under `base`, for the separator `sep`.
pub open spec fn resolve(base: Seq<char>, target: Seq<char>, sep: char) -> Seq<char> {
    let b = strip_trailing(base, sep);
    let t = effective_target(target, sep);
    if t[0] == sep {
        b + t
    } else {
        b + seq![sep] + t
    }
}

/// With `/` as the separator, a target passes through unconverted.
pub proof fn lemma_slash_convention_keeps_target(target: Seq<char>)
    ensures
        convert_separators(target, '/') == target,
{
    assert(convert_separators(target, '/') =~= target);
}

/// A non-empty target that does not start with the separator is joined to the
/// stripped base with exactly one separator in between.
pub proof fn lemma_relative_target(base: Seq<char>, target: Seq<char>, sep: char)
    requires
        target.len() > 0,
        convert_separators(target, sep)[0] != sep,
    ensures
        resolve(base, target, sep) == strip_trailing(base, sep) + seq![sep] + convert_separators(
            target,
            sep,
        ),
{
}

/// A target that starts with the separator is appended to the stripped base
/// with no separator inserted.
pub proof fn lemma_rooted_target(base: Seq<char>, target: Seq<char>, sep: char)
    requires
        target.len() > 0,
        convert_separators(target, sep)[0] == sep,
    ensures
        resolve(base, target, sep) == strip_trailing(base, sep) + convert_separators(target, sep),
{
}

/// The empty target resolves to the stripped base followed by one separator.
pub proof fn lemma_empty_target(base: Seq<char>, sep: char)
    ensures
        resolve(base, Seq::<char>::empty(), sep) == strip_trailing(base, sep) + seq![sep],
{
}

/// Relies on `std::path::MAIN_SEPARATOR`: `/` on Unix hosts, `\\` on Windows.
#[verifier::external_body]
fn main_separator() -> (r: char)
    ensures
        r == '/' || r == '\\',
{
    std::path::MAIN_SEPARATOR
}

/// Joins the base directory and a request target with the separator `sep`:
/// trailing separators of `base_dir` are dropped, `/` in the target becomes
/// `sep`, an empty target stands for the root, and one separator is inserted
/// only where the target does not start with one. No `..` or repeated
/// separator is normalized.
pub fn make_path_with_separator(base_dir: &str, file_name: &str, sep: char) -> (r: String)
    ensures
        r@ == resolve(base_dir@, file_name@, sep),
{
    let b = chars_of(base_dir);
    let mut n: usize = b.len();
    assert(b@.take(n as int) =~= b@);
    while n > 0 && b[n - 1] == sep
        invariant
            n <= b@.len(),
            strip_trailing(b@.take(n as int), sep) == strip_trailing(b@, sep),
        decreases n,
    {
        proof {
            assert(b@.take(n as int).drop_last() =~= b@.take(n as int - 1));
        }
        n -= 1;
    }
    let mut out: Vec<char> = Vec::new();
    let mut i: usize = 0;
    while i < n
        invariant
            n <= b@.len(),
            i <= n,
            out@ == b@.take(i as int),
        decreases n - i,
    {
        out.push(b[i]);
        i += 1;
        proof {
            assert(out@ =~= b@.take(i as int));
        }
    }
    let ghost stripped = out@;
    assert(stripped == strip_trailing(base_dir@, sep));

    let t = chars_of(file_name);
    let mut conv: Vec<char> = Vec::new();
    let mut j: usize = 0;
    while j < t.len()
        invariant
            j <= t@.len(),
            conv@ == convert_separators(t@.take(j as int), sep),
        decreases t.len() - j,
    {
        let c = t[j];
        if c == '/' {
            conv.push(sep);
        } else {
            conv.push(c);
        }
        j += 1;
        proof {
            assert(conv@ =~= convert_separators(t@.take(j as int), sep));
        }
    }
    proof {
        assert(t@.take(j as int) =~= t@);
    }
    if conv.len() == 0 {
        conv.push(sep);
    }
    assert(conv@ =~= effective_target(file_name@, sep));
    if conv[0] != sep {
        out.push(sep);
    }
    let ghost mid = out@;
    let mut k: usize = 0;
    while k < conv.len()
        invariant
            k <= conv@.len(),
            out@ == mid + conv@.take(k as int),
        decreases conv.len() - k,
    {
        out.push(conv[k]);
        k += 1;
        proof {
            assert(out@ =~= mid + conv@.take(k as int));
        }
    }
    proof {
        assert(conv@.take(k as int) =~= conv@);
        assert(out@ =~= resolve(base_dir@, file_name@, sep));
    }
    string_from_chars(&out)
}

/// Joins the base directory and a request target with the host's path
/// separator, as `make_path_with_separator` does.
pub fn make_path(base_dir: &str, file_name: &str) -> (r: String)
    ensures
        r@ == resolve(base_dir@, file_name@, '/') || r@ == resolve(base_dir@, file_name@, '\\'),
{
    let sep = main_separator();
    make_path_with_separator(base_dir, file_name, sep)
}

} // verus!
