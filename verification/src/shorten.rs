//! Short forms of the folders, for the table of key bindings.

use vstd::prelude::*;
use crate::paths::{strip_trailing_slash, without_trailing_slash};

verus! {

/// What `tico::tico` makes of a path, with and without a home directory.
pub uninterp spec fn shortened(path: Seq<char>, home_dir: Option<Seq<char>>) -> Seq<char>;

/// The characters of a home directory, if there is one.
pub open spec fn home_view(home_dir: Option<&str>) -> Option<Seq<char>> {
    match home_dir {
        Some(dir) => Some(dir@),
        None => None,
    }
}

/// Calls `tico::tico`, which shortens a path for display. All that is claimed
/// of it is that its result depends on the two texts alone: it rewrites the
/// characters of the path and reads nothing else.
#[verifier::external_body]
fn tico_of(path: &str, home_dir: Option<&str>) -> (short: String)
    ensures
        short@ == shortened(path@, home_view(home_dir)),
{
    tico::tico(path, home_dir)
}

/// The short form of a folder. One `/` at the end of the path is left out
/// first: with it the last level would be shortened too.
pub fn shorten_path(path: &str, home_dir: Option<&str>) -> (short: String)
    ensures
        short@ == shortened(without_trailing_slash(path@), home_view(home_dir)),
{
    let stripped = strip_trailing_slash(path);
    tico_of(stripped.as_str(), home_dir)
}

} // verus!
