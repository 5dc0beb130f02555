//! Where a copy goes: the place of a file under the output directory mirrors
//! its place under its scan root.
//!
//! Paths are sequences of characters in which `/` separates the components.

use vstd::prelude::*;
use crate::text::chars_of;

verus! {

/// What separates `root` from a path below it: nothing where `root` is empty
/// or already ends with `/`, and one `/` otherwise.
pub open spec fn separator_after(root: Seq<char>) -> Seq<char> {
    if root.len() == 0 || root.last() == '/' {
        Seq::empty()
    } else {
        seq!['/']
    }
}

/// The position of `path` relative to `root`: the `rel` with
/// `path == root + separator_after(root) + rel`, where there is one that is
/// not empty and does not itself begin with `/`.
pub open spec fn relative_to(root: Seq<char>, path: Seq<char>) -> Option<Seq<char>> {
    let base = root + separator_after(root);
    if base.is_prefix_of(path) {
        let rel = path.skip(base.len() as int);
        if rel.len() > 0 && rel[0] != '/' {
            Some(rel)
        } else {
            None
        }
    } else {
        None
    }
}

/// The path `rel` below the directory `dir`.
pub open spec fn joined(dir: Seq<char>, rel: Seq<char>) -> Seq<char> {
    dir + separator_after(dir) + rel
}

/// The destination of the file at `path`, found under the scan root `root`,
/// when copies go to `output_dir`; nothing where `path` does not lie below
/// `root`.
pub open spec fn mirrored(root: Seq<char>, path: Seq<char>, output_dir: Seq<char>) -> Option<
    Seq<char>,
> {
    match relative_to(root, path) {
        Some(rel) => Some(joined(output_dir, rel)),
        None => None,
    }
}

fn ends_with_separator(chars: &Vec<char>) -> (ends: bool)
    ensures
        ends == (separator_after(chars@).len() == 0),
        !ends ==> separator_after(chars@) == seq!['/'],
{
    chars.len() == 0 || chars[chars.len() - 1] == '/'
}

/// Whether `path` begins with the characters of `root`.
fn begins_with(path: &Vec<char>, root: &Vec<char>) -> (begins: bool)
    ensures
        begins == root@.is_prefix_of(path@),
{
    if root.len() > path.len() {
        return false;
    }
    let mut i: usize = 0;
    while i < root.len()
        invariant
            i <= root.len() <= path.len(),
            forall|j: int| 0 <= j < i ==> root@[j] == path@[j],
        decreases root.len() - i,
    {
        if root[i] != path[i] {
            assert(path@.subrange(0, root@.len() as int)[i as int] != root@[i as int]);
            return false;
        }
        i = i + 1;
    }
    assert(root@ =~= path@.subrange(0, root@.len() as int));
    true
}

/// The part of `path` that lies below `root`.
pub fn relative_path<'a>(root: &str, path: &'a str) -> (rel: Option<&'a str>)
    ensures
        match rel {
            Some(r) => relative_to(root@, path@) == Some(r@),
            None => relative_to(root@, path@) is None,
        },
{
    let root_chars = chars_of(root);
    let path_chars = chars_of(path);
    let ghost base = root@ + separator_after(root@);
    if !begins_with(&path_chars, &root_chars) {
        assert(!base.is_prefix_of(path@)) by {
            if base.is_prefix_of(path@) {
                assert(root@ =~= path@.subrange(0, base.len() as int).subrange(
                    0,
                    root@.len() as int,
                ));
                assert(root@ =~= path@.subrange(0, root@.len() as int));
            }
        }
        return None;
    }
    let mut start: usize = root_chars.len();
    if !ends_with_separator(&root_chars) {
        if start >= path_chars.len() || path_chars[start] != '/' {
            assert(!base.is_prefix_of(path@)) by {
                if base.is_prefix_of(path@) {
                    assert(base[start as int] == '/');
                    assert(path@.subrange(0, base.len() as int)[start as int] == '/');
                }
            }
            return None;
        }
        start = start + 1;
    }
    assert(base =~= path@.subrange(0, start as int));
    if start >= path_chars.len() || path_chars[start] == '/' {
        return None;
    }
    let rel = path.substring_char(start, path_chars.len());
    assert(rel@ =~= path@.skip(base.len() as int));
    Some(rel)
}

/// The path `rel` below the directory `dir`.
pub fn join(dir: &str, rel: &str) -> (path: String)
    ensures
        path@ == joined(dir@, rel@),
{
    let dir_chars = chars_of(dir);
    let mut path = String::from_str(dir);
    if !ends_with_separator(&dir_chars) {
        proof {
            reveal_strlit("/");
        }
        path.append("/");
        assert("/"@ =~= seq!['/']);
    }
    path.append(rel);
    path
}

/// The destination of the file at `path`, found under `root`, below
/// `output_dir`.
pub fn mirror_path(root: &str, path: &str, output_dir: &str) -> (destination: Option<String>)
    ensures
        match destination {
            Some(d) => mirrored(root@, path@, output_dir@) == Some(d@),
            None => mirrored(root@, path@, output_dir@) is None,
        },
{
    match relative_path(root, path) {
        Some(rel) => Some(join(output_dir, rel)),
        None => None,
    }
}

/// A path that has a position relative to `root` is `root`, the separator
/// and that position.
pub proof fn lemma_relative_to_rebuilds(root: Seq<char>, path: Seq<char>)
    requires
        relative_to(root, path) is Some,
    ensures
        path == joined(root, relative_to(root, path)->0),
{
    let base = root + separator_after(root);
    assert(path =~= path.subrange(0, base.len() as int) + path.skip(base.len() as int));
}

/// A destination lies below the output directory, and two files of one scan
/// root never share a destination.
pub proof fn lemma_mirror_is_faithful(
    root: Seq<char>,
    first: Seq<char>,
    second: Seq<char>,
    output_dir: Seq<char>,
)
    requires
        mirrored(root, first, output_dir) is Some,
        mirrored(root, first, output_dir) == mirrored(root, second, output_dir),
    ensures
        output_dir.is_prefix_of(mirrored(root, first, output_dir)->0),
        first == second,
{
    let rel_first = relative_to(root, first)->0;
    let rel_second = relative_to(root, second)->0;
    let base = output_dir + separator_after(output_dir);
    let destination = mirrored(root, first, output_dir)->0;
    assert(output_dir =~= destination.subrange(0, output_dir.len() as int));
    assert(rel_first =~= (base + rel_first).skip(base.len() as int));
    assert(rel_second =~= (base + rel_second).skip(base.len() as int));
    lemma_relative_to_rebuilds(root, first);
    lemma_relative_to_rebuilds(root, second);
}

} // verus!
