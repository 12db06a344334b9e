//! HTML index pages for directories.

use vstd::prelude::*;
use crate::text::{chars_of, push_all, push_str_chars, string_from_chars};

verus! {

/// One child of a listed directory: its name and whether it is a directory.
pub struct DirEntryInfo {
    pub name: String,
    pub is_dir: bool,
}

impl View for DirEntryInfo {
    type V = (Seq<char>, bool);

    open spec fn view(&self) -> (Seq<char>, bool) {
        (self.name@, self.is_dir)
    }
}

impl DirEntryInfo {
    pub fn new(name: String, is_dir: bool) -> (r: DirEntryInfo)
        ensures
            r@ == (name@, is_dir),
    {
        DirEntryInfo { name, is_dir }
    }
}

/// The list item for one child; a directory's name and link end in `/`.
pub open spec fn entry_html(e: (Seq<char>, bool)) -> Seq<char> {
    if e.1 {
        "<li><a href=\""@ + e.0 + "/\">"@ + e.0 + "/</a></li>"@
    } else {
        "<li><a href=\""@ + e.0 + "\">"@ + e.0 + "</a></li>"@
    }
}

/// The list items for the children, in the order given.
pub open spec fn entries_html(es: Seq<(Seq<char>, bool)>) -> Seq<char>
    decreases es.len(),
{
    if es.len() == 0 {
        Seq::empty()
    } else {
        entries_html(es.drop_last()) + entry_html(es.last())
    }
}

/// Everything of the page before the list items.
pub open spec fn listing_head(path: Seq<char>) -> Seq<char> {
    "<html><head><title>Index of "@ + path + "</title></head><body><h1>Index of "@ + path
        + "</h1><hr><ul>"@
}

/// The whole index page of the directory `path` with the children `es`.
pub open spec fn listing_html(path: Seq<char>, es: Seq<(Seq<char>, bool)>) -> Seq<char> {
    listing_head(path) + entries_html(es) + "</ul><hr></body></html>"@
}

/// The views of a list of entries.
pub open spec fn entries_view(es: Seq<DirEntryInfo>) -> Seq<(Seq<char>, bool)> {
    es.map_values(|e: DirEntryInfo| e@)
}

/// Renders the index page of the directory `path`: title and heading show
/// the path, then one list item per entry, in the order given.
pub fn get_dir_list(path: &str, entries: &Vec<DirEntryInfo>) -> (r: String)
    ensures
        r@ == listing_html(path@, entries_view(entries@)),
{
    let ghost es = entries_view(entries@);
    let mut out: Vec<char> = Vec::new();
    push_str_chars(&mut out, "<html><head><title>Index of ");
    push_str_chars(&mut out, path);
    push_str_chars(&mut out, "</title></head><body><h1>Index of ");
    push_str_chars(&mut out, path);
    push_str_chars(&mut out, "</h1><hr><ul>");
    let ghost head = out@;
    assert(head =~= listing_head(path@));
    let mut i: usize = 0;
    while i < entries.len()
        invariant
            i <= entries@.len(),
            es == entries_view(entries@),
            out@ == head + entries_html(es.take(i as int)),
        decreases entries.len() - i,
    {
        let e = &entries[i];
        let name = chars_of(e.name.as_str());
        let ghost before = out@;
        push_str_chars(&mut out, "<li><a href=\"");
        push_all(&mut out, &name);
        if e.is_dir {
            push_str_chars(&mut out, "/\">");
        } else {
            push_str_chars(&mut out, "\">");
        }
        push_all(&mut out, &name);
        if e.is_dir {
            push_str_chars(&mut out, "/</a></li>");
        } else {
            push_str_chars(&mut out, "</a></li>");
        }
        proof {
            assert(out@ =~= before + entry_html(es[i as int]));
            assert(es.take(i as int + 1).drop_last() =~= es.take(i as int));
            assert(es.take(i as int + 1).last() == es[i as int]);
        }
        i += 1;
        proof {
            assert(out@ =~= head + entries_html(es.take(i as int)));
        }
    }
    push_str_chars(&mut out, "</ul><hr></body></html>");
    proof {
        assert(es.take(i as int) =~= es);
        assert(out@ =~= listing_html(path@, es));
    }
    string_from_chars(&out)
}

} // verus!
