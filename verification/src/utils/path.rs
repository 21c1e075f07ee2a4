//! Paths as text: components, file names and extensions.

use vstd::prelude::*;
use vstd::string::StrSliceExecFns;
use crate::syntax::text::{find, find_bytes, matches_at, occurs_at};

verus! {

/// Whether `c` separates the components of a path.
pub open spec fn is_sep(c: char) -> bool {
    c == '/' || c == '\\'
}

/// Whether the byte `b` separates the components of a path.
pub open spec fn is_sep_byte(b: u8) -> bool {
    b == 0x2F || b == 0x5C
}

/// Position behind the last separator of `path` before `to`; zero where
/// there is none.
pub open spec fn name_start(path: Seq<char>, to: int) -> int
    decreases to,
{
    if to <= 0 || to > path.len() {
        0
    } else if is_sep(path[to - 1]) {
        to
    } else {
        name_start(path, to - 1)
    }
}

/// The last component of `path`: what stands behind its last separator.
pub open spec fn file_name(path: Seq<char>) -> Seq<char> {
    path.skip(name_start(path, path.len() as int))
}

/// Position of the last dot of `name` before `to`, if there is one.
pub open spec fn last_dot(name: Seq<char>, to: int) -> Option<int>
    decreases to,
{
    if to <= 0 || to > name.len() {
        None
    } else if name[to - 1] == '.' {
        Some(to - 1)
    } else {
        last_dot(name, to - 1)
    }
}

/// The extension of `path`: what stands behind the last dot of its file
/// name. A file name without a dot has none, nor one whose only dot is its
/// first character.
pub open spec fn extension(path: Seq<char>) -> Option<Seq<char>> {
    let name = file_name(path);
    match last_dot(name, name.len() as int) {
        Some(dot) => if dot > 0 {
            Some(name.skip(dot + 1))
        } else {
            None
        },
        None => None,
    }
}

/// Position behind the last separator of `path`.
fn find_name_start(path: &str, n: usize) -> (r: usize)
    requires
        n == path@.len(),
    ensures
        r == name_start(path@, n as int),
        r <= n,
{
    let mut to: usize = n;
    while to > 0
        invariant
            to <= n,
            n == path@.len(),
            name_start(path@, n as int) == name_start(path@, to as int),
        decreases to,
    {
        let c: char = path.get_char(to - 1);
        if c == '/' || c == '\\' {
            return to;
        }
        to = to - 1;
    }
    0
}

/// The last component of `path`.
pub fn file_name_of(path: &str) -> (r: &str)
    ensures
        r@ == file_name(path@),
{
    let n: usize = path.unicode_len();
    let start: usize = find_name_start(path, n);
    let r = path.substring_char(start, n);
    assert(r@ =~= path@.skip(start as int));
    r
}

/// The extension of `path`.
pub fn extension_of(path: &str) -> (r: Option<&str>)
    ensures
        match r {
            Some(ext) => extension(path@) == Some(ext@),
            None => extension(path@) is None,
        },
{
    let name: &str = file_name_of(path);
    let n: usize = name.unicode_len();
    let mut to: usize = n;
    while to > 0
        invariant
            to <= n,
            n == name@.len(),
            name@ == file_name(path@),
            last_dot(name@, n as int) == last_dot(name@, to as int),
        decreases to,
    {
        if name.get_char(to - 1) == '.' {
            if to - 1 > 0 {
                let ext = name.substring_char(to, n);
                assert(ext@ =~= name@.skip(to as int));
                return Some(ext);
            } else {
                return None;
            }
        }
        to = to - 1;
    }
    None
}

/// Whether a component of `path` begins with a dot.
pub open spec fn has_hidden_component(path: Seq<u8>) -> bool {
    exists|i: int| is_hidden_start(path, i)
}

/// Whether a component of `path` begins at `i` with a dot.
pub open spec fn is_hidden_start(path: Seq<u8>, i: int) -> bool {
    &&& 0 <= i < path.len()
    &&& path[i] == 0x2E
    &&& (i == 0 || is_sep_byte(path[i - 1]))
}

/// Whether a component of `path` begins with a dot.
pub fn is_hidden(path: &[u8]) -> (r: bool)
    ensures
        r == has_hidden_component(path@),
{
    let n: usize = path.len();
    let mut i: usize = 0;
    while i < n
        invariant
            i <= n,
            n == path@.len(),
            forall|j: int| 0 <= j < i ==> !is_hidden_start(path@, j),
        decreases n - i,
    {
        if path[i] == 0x2E && (i == 0 || path[i - 1] == 0x2F || path[i - 1] == 0x5C) {
            assert(is_hidden_start(path@, i as int));
            return true;
        }
        i = i + 1;
    }
    false
}

/// Whether `path` ends with the path fragment `tail`: the fragment is not
/// empty, stands at the end of `path`, and begins at the start of a
/// component.
pub open spec fn ends_with_path(path: Seq<u8>, tail: Seq<u8>) -> bool {
    &&& 0 < tail.len() <= path.len()
    &&& occurs_at(path, tail, path.len() - tail.len())
    &&& (tail.len() == path.len() || is_sep_byte(path[path.len() - tail.len() - 1])
        || is_sep_byte(tail[0]))
}

/// Whether `path` ends with the path fragment `tail`.
pub fn path_ends_with(path: &[u8], tail: &[u8]) -> (r: bool)
    ensures
        r == ends_with_path(path@, tail@),
{
    let n: usize = path.len();
    let m: usize = tail.len();
    if m == 0 || m > n {
        return false;
    }
    if !matches_at(path, tail, n - m) {
        return false;
    }
    m == n || path[n - m - 1] == 0x2F || path[n - m - 1] == 0x5C || tail[0] == 0x2F || tail[0]
        == 0x5C
}

/// Whether `needle` stands somewhere in `hay`.
pub fn contains_bytes(hay: &[u8], needle: &[u8]) -> (r: bool)
    ensures
        r == (find(hay@, needle@) is Some),
{
    find_bytes(hay, needle).is_some()
}

} // verus!
