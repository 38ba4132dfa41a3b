//! Paths as text: the file name, the extension, joining.

use vstd::prelude::*;
use vstd::string::*;
use crate::text::{chars_of, text_between};

verus! {

/// Where the last component of `path` starts: behind its last `/`, or at 0.
pub open spec fn name_start(path: Seq<char>) -> nat
    decreases path.len(),
{
    if path.len() == 0 || path.last() == '/' {
        path.len()
    } else {
        name_start(path.drop_last())
    }
}

/// The file name of `path`: what follows its last `/`. There is none where
/// that is empty, `.` or `..`.
pub open spec fn file_name(path: Seq<char>) -> Option<Seq<char>> {
    let name = path.skip(name_start(path) as int);
    if name.len() == 0 || name == seq!['.'] || name == seq!['.', '.'] {
        None
    } else {
        Some(name)
    }
}

/// Whether `path` ends in a dot and `ext`, the dot not being the first
/// character of the file name.
pub open spec fn has_extension(path: Seq<char>, ext: Seq<char>) -> bool {
    let dot = path.len() - ext.len() - 1;
    &&& dot >= 1
    &&& path[dot] == '.'
    &&& path[dot - 1] != '/'
    &&& path.skip(dot + 1) == ext
}

/// Whether `path` is named like a JPEG or PNG image. Case matters.
pub open spec fn looks_like_image(path: Seq<char>) -> bool {
    ||| has_extension(path, "jpeg"@)
    ||| has_extension(path, "jpg"@)
    ||| has_extension(path, "png"@)
}

/// `name` inside `folder`.
pub open spec fn joined(folder: Seq<char>, name: Seq<char>) -> Seq<char> {
    folder + seq!['/'] + name
}

/// `path` without one `/` at its end, if it has one.
pub open spec fn without_trailing_slash(path: Seq<char>) -> Seq<char> {
    if path.len() > 0 && path.last() == '/' {
        path.drop_last()
    } else {
        path
    }
}

/// The last component starts inside the path or right behind it.
proof fn lemma_name_start_bound(path: Seq<char>)
    ensures
        name_start(path) <= path.len(),
    decreases path.len(),
{
    if !(path.len() == 0 || path.last() == '/') {
        lemma_name_start_bound(path.drop_last());
    }
}

/// Only what stands before a place decides where the name before it starts.
proof fn lemma_name_start_take(path: Seq<char>, i: int)
    requires
        0 < i <= path.len(),
        path[i - 1] != '/',
    ensures
        name_start(path.take(i)) == name_start(path.take(i - 1)),
{
    assert(path.take(i).drop_last() =~= path.take(i - 1));
}

/// Where the last component of a path starts.
fn find_name_start(chars: &Vec<char>) -> (start: usize)
    ensures
        start == name_start(chars@),
        start <= chars.len(),
{
    let mut start: usize = chars.len();
    proof {
        assert(chars@.take(chars@.len() as int) =~= chars@);
    }
    while start > 0 && chars[start - 1] != '/'
        invariant
            start <= chars.len(),
            name_start(chars@.take(start as int)) == name_start(chars@),
        decreases start,
    {
        proof {
            lemma_name_start_take(chars@, start as int);
        }
        start = start - 1;
    }
    proof {
        lemma_name_start_bound(chars@.take(start as int));
    }
    start
}

/// The file name of `path`, as its characters.
pub fn file_name_chars(path: &str) -> (name: Option<Vec<char>>)
    ensures
        name.is_some() == file_name(path@).is_some(),
        name matches Some(chars) ==> file_name(path@) == Some(chars@),
{
    let mut chars = chars_of(path);
    let start = find_name_start(&chars);
    let name = chars.split_off(start);
    let n = name.len();
    if n == 0 || (n == 1 && name[0] == '.') || (n == 2 && name[0] == '.' && name[1] == '.') {
        proof {
            if n == 1 {
                assert(name@ =~= seq!['.']);
            }
            if n == 2 {
                assert(name@ =~= seq!['.', '.']);
            }
        }
        None
    } else {
        Some(name)
    }
}

/// Whether a path ends in a dot and `ext`, the dot not being the first
/// character of the file name.
fn ends_in_extension(path: &Vec<char>, ext: &str) -> (found: bool)
    ensures
        found == has_extension(path@, ext@),
{
    let ext_chars = chars_of(ext);
    let n = path.len();
    let m = ext_chars.len();
    if m >= n || n - m < 2 {
        return false;
    }
    let dot = n - m - 1;
    if path[dot] != '.' || path[dot - 1] == '/' {
        return false;
    }
    let mut i: usize = 0;
    while i < m
        invariant
            i <= m,
            m == ext_chars.len(),
            ext_chars@ == ext@,
            n == path.len(),
            dot == n - m - 1,
            dot >= 1,
            forall|j: int| 0 <= j < i ==> path[dot + 1 + j] == ext_chars[j],
        decreases m - i,
    {
        if path[dot + 1 + i] != ext_chars[i] {
            return false;
        }
        i = i + 1;
    }
    assert(path@.skip(dot + 1) =~= ext@);
    true
}

/// Whether `path` is named like a JPEG or PNG image.
pub fn is_named_like_image(path: &str) -> (named: bool)
    ensures
        named == looks_like_image(path@),
{
    let chars = chars_of(path);
    ends_in_extension(&chars, "jpeg") || ends_in_extension(&chars, "jpg") || ends_in_extension(
        &chars,
        "png",
    )
}

/// `name` inside `folder`.
pub fn join(folder: &str, name: &str) -> (path: String)
    ensures
        path@ == joined(folder@, name@),
{
    let mut path = String::from_str(folder);
    path.push('/');
    path.append(name);
    path
}

/// `path` without one `/` at its end, if it has one.
pub fn strip_trailing_slash(path: &str) -> (stripped: String)
    ensures
        stripped@ == without_trailing_slash(path@),
{
    let chars = chars_of(path);
    let n = chars.len();
    if n > 0 && chars[n - 1] == '/' {
        let stripped = text_between(&chars, 0, n - 1);
        stripped
    } else {
        String::from_str(path)
    }
}

} // verus!
