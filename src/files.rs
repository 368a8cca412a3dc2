//! The files under a directory, as paths relative to it.

use vstd::prelude::*;
use crate::model::{views, push_owned, push_text};

verus! {

/// An entry of a directory listing, in the order the directory yields them.
#[derive(Debug, PartialEq, Eq)]
pub enum DirEntry {
    File(String),
    Dir(String, Vec<DirEntry>),
}

/// `name/` put in front of each path.
pub open spec fn under(name: Seq<char>, paths: Seq<Seq<char>>) -> Seq<Seq<char>> {
    paths.map_values(|p: Seq<char>| name + seq!['/'] + p)
}

/// The relative paths of the files of an entry, depth first.
pub open spec fn entry_paths(e: DirEntry) -> Seq<Seq<char>>
    decreases e, 0nat,
{
    match e {
        DirEntry::File(name) => seq![name@],
        DirEntry::Dir(name, children) => under(name@, listing_paths(children@, children@.len() as int)),
    }
}

/// The relative paths of the files of the first `i` entries, depth first.
pub open spec fn listing_paths(es: Seq<DirEntry>, i: int) -> Seq<Seq<char>>
    decreases es, i,
{
    if i <= 0 || i > es.len() {
        seq![]
    } else {
        listing_paths(es, i - 1) + entry_paths(es[i - 1])
    }
}

fn prefixed(name: &str, path: &str) -> (r: String)
    ensures
        r@ == name@ + seq!['/'] + path@,
{
    proof {
        reveal_strlit("/");
    }
    let mut r = String::from_str(name);
    r.append("/");
    r.append(path);
    assert(r@ =~= name@ + seq!['/'] + path@);
    r
}

/// The files of a directory listing as relative paths, depth first, in the
/// order the listing gives its entries, with '/' between path components
/// whatever the host platform.
pub fn list_files_recursive(entries: &Vec<DirEntry>) -> (r: Vec<String>)
    ensures
        views(r@) == listing_paths(entries@, entries@.len() as int),
    decreases entries,
{
    let mut r: Vec<String> = Vec::new();
    let mut i: usize = 0;
    while i < entries.len()
        invariant
            i <= entries.len(),
            views(r@) == listing_paths(entries@, i as int),
        decreases entries.len() - i,
    {
        let ghost before = views(r@);
        match &entries[i] {
            DirEntry::File(name) => {
                push_text(&mut r, name.as_str());
                assert(entry_paths(entries@[i as int]) == seq![name@]);
                assert(views(r@) =~= before + entry_paths(entries@[i as int]));
            },
            DirEntry::Dir(name, children) => {
                assert(decreases_to!(entries => entries@[i as int]));
                let sub = list_files_recursive(children);
                let mut j: usize = 0;
                while j < sub.len()
                    invariant
                        j <= sub.len(),
                        views(r@) == before + under(name@, views(sub@)).subrange(0, j as int),
                    decreases sub.len() - j,
                {
                    push_owned(&mut r, prefixed(name.as_str(), sub[j].as_str()));
                    j = j + 1;
                    assert(views(r@) =~= before + under(name@, views(sub@)).subrange(0, j as int));
                }
                assert(under(name@, views(sub@)).subrange(0, j as int) =~= under(name@, views(sub@)));
                assert(entry_paths(entries@[i as int]) == under(name@, views(sub@)));
            },
        }
        assert(listing_paths(entries@, i + 1) == listing_paths(entries@, i as int) + entry_paths(
            entries@[i as int],
        ));
        i = i + 1;
    }
    r
}

} // verus!
