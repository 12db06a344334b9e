//! Content types by file extension.

use vstd::prelude::*;
use crate::text::{chars_of, same_chars};

verus! {

/// The content type for an extension; matching is case-sensitive, and an
/// unknown or empty extension is plain text.
pub open spec fn mime_of(ext: Seq<char>) -> Seq<char> {
    if ext == "js"@ {
        "application/javascript"@
    } else if ext == "html"@ || ext == "htm"@ {
        "text/html"@
    } else if ext == "jpg"@ || ext == "jpeg"@ || ext == "jfif"@ || ext == "pjpeg"@ || ext
        == "pjp"@ {
        "image/jpeg"@
    } else if ext == "png"@ {
        "image/png"@
    } else if ext == "svg"@ {
        "image/svg+xml"@
    } else if ext == "gif"@ {
        "image/gif"@
    } else if ext == "bmp"@ {
        "image/bmp"@
    } else if ext == "apng"@ {
        "image/apng"@
    } else if ext == "tiff"@ || ext == "tif"@ {
        "image/tiff"@
    } else if ext == "webp"@ {
        "image/webp"@
    } else {
        "text/plain"@
    }
}

/// The extension that `std::path::Path::extension` reports for a path.
pub uninterp spec fn extension_of(p: Seq<char>) -> Option<Seq<char>>;

/// The extension to classify: the path's extension, or empty if it has none.
pub open spec fn extension_or_empty(p: Seq<char>) -> Seq<char> {
    match extension_of(p) {
        Some(e) => e,
        None => Seq::empty(),
    }
}

/// Relies on `std::path::Path::extension`: the text after the last `.` of
/// the final component, if the path has one.
#[verifier::external_body]
fn path_extension(p: &str) -> (r: Option<String>)
    ensures
        extension_of(p@) == match r {
            Some(e) => Some(e@),
            None => None::<Seq<char>>,
        },
{
    match std::path::Path::new(p).extension() {
        Some(e) => Some(e.to_string_lossy().into_owned()),
        None => None,
    }
}

/// Whether the characters of `a` spell the string `lit`.
fn spells(a: &Vec<char>, lit: &str) -> (r: bool)
    ensures
        r == (a@ == lit@),
{
    let b = chars_of(lit);
    same_chars(a, &b)
}

/// The content type for a file extension (without the leading `.`).
pub fn classify(ext: &str) -> (r: String)
    ensures
        r@ == mime_of(ext@),
{
    let e = chars_of(ext);
    if spells(&e, "js") {
        String::from_str("application/javascript")
    } else if spells(&e, "html") || spells(&e, "htm") {
        String::from_str("text/html")
    } else if spells(&e, "jpg") || spells(&e, "jpeg") || spells(&e, "jfif") || spells(
        &e,
        "pjpeg",
    ) || spells(&e, "pjp") {
        String::from_str("image/jpeg")
    } else if spells(&e, "png") {
        String::from_str("image/png")
    } else if spells(&e, "svg") {
        String::from_str("image/svg+xml")
    } else if spells(&e, "gif") {
        String::from_str("image/gif")
    } else if spells(&e, "bmp") {
        String::from_str("image/bmp")
    } else if spells(&e, "apng") {
        String::from_str("image/apng")
    } else if spells(&e, "tiff") || spells(&e, "tif") {
        String::from_str("image/tiff")
    } else if spells(&e, "webp") {
        String::from_str("image/webp")
    } else {
        String::from_str("text/plain")
    }
}

/// The content type for the file at `path`, by its extension.
pub fn get_mime(path: &str) -> (r: String)
    ensures
        r@ == mime_of(extension_or_empty(path@)),
{
    match path_extension(path) {
        Some(e) => classify(e.as_str()),
        None => {
            proof {
                reveal_strlit("");
                assert(""@ =~= Seq::<char>::empty());
            }
            classify("")
        },
    }
}

} // verus!
