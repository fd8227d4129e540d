//! Paths as byte strings: whether a path stays within a root, and whether
//! one byte string occurs in another.

use vstd::prelude::*;

verus! {

/// The byte that separates the steps of a path.
pub const SEPARATOR: u8 = 0x2f;

/// The byte of which the step to the parent directory is made.
pub const DOT: u8 = 0x2e;

/// Whether the step that begins at `i` is the step to the parent
/// directory: two dots, with a separator or an end on either side.
pub open spec fn parent_step_at(path: Seq<u8>, i: int) -> bool {
    &&& 0 <= i
    &&& i + 1 < path.len()
    &&& path[i] == DOT
    &&& path[i + 1] == DOT
    &&& (i == 0 || path[i - 1] == SEPARATOR)
    &&& (i + 2 == path.len() || path[i + 2] == SEPARATOR)
}

/// Whether some step of the path leads to the parent directory.
pub open spec fn has_parent_step(path: Seq<u8>) -> bool {
    exists|i: int| parent_step_at(path, i)
}

/// Whether `prefix` stands at the start of `text`.
pub open spec fn starts_with(text: Seq<u8>, prefix: Seq<u8>) -> bool {
    prefix.len() <= text.len() && text.take(prefix.len() as int) == prefix
}

/// Whether `path` names the root or something below it, going by the text
/// alone.
///
/// The path begins with the root; what follows the root, if anything,
/// begins a new step (after an empty root it is relative); and no step of
/// it leads to a parent directory.
pub open spec fn is_within(root: Seq<u8>, path: Seq<u8>) -> bool {
    let rest = path.skip(root.len() as int);
    &&& starts_with(path, root)
    &&& rest.len() > 0 && root.len() == 0 ==> rest[0] != SEPARATOR
    &&& rest.len() > 0 && root.len() > 0 && root.last() != SEPARATOR ==> rest[0] == SEPARATOR
    &&& !has_parent_step(rest)
}

/// Whether `needle` occurs in `text` as a run of adjacent bytes, beginning
/// at `i`.
pub open spec fn occurs_at(needle: Seq<u8>, text: Seq<u8>, i: int) -> bool {
    0 <= i && i + needle.len() <= text.len() && text.subrange(i, i + needle.len()) == needle
}

/// Whether `needle` occurs anywhere in `text`.
pub open spec fn occurs_in(needle: Seq<u8>, text: Seq<u8>) -> bool {
    exists|i: int| occurs_at(needle, text, i)
}

/// Tells whether `needle` begins at `start` in `text`.
fn matches_at(needle: &[u8], text: &[u8], start: usize) -> (r: bool)
    requires
        start + needle.len() <= text.len(),
    ensures
        r == occurs_at(needle@, text@, start as int),
{
    let mut j: usize = 0;
    while j < needle.len()
        invariant
            j <= needle.len(),
            start + needle.len() <= text.len(),
            forall|k: int| 0 <= k < j ==> text@[start + k] == needle@[k],
        decreases needle.len() - j,
    {
        if text[start + j] != needle[j] {
            return false;
        }
        j += 1;
    }
    assert(text@.subrange(start as int, start + needle.len()) =~= needle@);
    true
}

/// Tells whether `prefix` stands at the start of `text`.
pub fn has_prefix(text: &[u8], prefix: &[u8]) -> (r: bool)
    ensures
        r == starts_with(text@, prefix@),
{
    if prefix.len() > text.len() {
        return false;
    }
    matches_at(prefix, text, 0)
}

/// Tells whether `needle` occurs anywhere in `text`.
pub fn contains(text: &[u8], needle: &[u8]) -> (r: bool)
    ensures
        r == occurs_in(needle@, text@),
{
    if needle.len() > text.len() {
        return false;
    }
    let last: usize = text.len() - needle.len();
    let mut i: usize = 0;
    while i < last
        invariant
            last + needle.len() == text.len(),
            i <= last,
            forall|k: int| 0 <= k < i ==> !occurs_at(needle@, text@, k),
        decreases last - i,
    {
        if matches_at(needle, text, i) {
            return true;
        }
        i += 1;
    }
    matches_at(needle, text, last)
}

/// Tells whether `path` names `root` or something below it, going by the
/// text alone.
pub fn within_root(root: &[u8], path: &[u8]) -> (r: bool)
    ensures
        r == is_within(root@, path@),
{
    if !has_prefix(path, root) {
        return false;
    }
    let start: usize = root.len();
    let n: usize = path.len();
    let ghost rest = path@.skip(start as int);
    if start == n {
        return true;
    }
    if start == 0 {
        if path[start] == SEPARATOR {
            return false;
        }
    } else if root[start - 1] != SEPARATOR {
        if path[start] != SEPARATOR {
            return false;
        }
    }
    let mut i: usize = start;
    while i < n - 1
        invariant
            start <= i,
            i <= n,
            n == path.len(),
            start < n,
            start == root.len(),
            rest == path@.skip(start as int),
            forall|k: int| 0 <= k < i - start ==> !parent_step_at(rest, k),
        decreases n - i,
    {
        if path[i] == DOT && path[i + 1] == DOT {
            let before: bool = i == start || path[i - 1] == SEPARATOR;
            let behind: bool = i + 2 == n || path[i + 2] == SEPARATOR;
            if before && behind {
                assert(parent_step_at(rest, i - start));
                return false;
            }
        }
        i += 1;
    }
    true
}

} // verus!
