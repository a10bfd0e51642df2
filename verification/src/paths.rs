//! Paths as plain text, with `/` between their components.
//!
//! A path is taken as it is written. Nothing in it is interpreted or tidied:
//! a separator at the end or two in a row stay where they are, `.` and `..`
//! are names like any other, and no other character separates. So the
//! parent of `a/b/` is `a/b`, and the parent of `a//b` is `a/`.

use vstd::prelude::*;

verus! {

/// The character that separates the components of a path.
pub const SEPARATOR: char = '/';

/// Whether a path starts at the root.
pub open spec fn absolute(path: Seq<char>) -> bool {
    path.len() > 0 && path[0] == SEPARATOR
}

/// `path` as seen from `base`: an absolute path stands for itself, any other
/// is appended to `base`, with one separator between them where `base` does
/// not already end in one. Both are taken as written: separators inside them
/// are neither added nor removed.
pub open spec fn joined(base: Seq<char>, path: Seq<char>) -> Seq<char> {
    if absolute(path) || base.len() == 0 {
        path
    } else if base.last() == SEPARATOR {
        base + path
    } else {
        base + seq![SEPARATOR] + path
    }
}

/// The position of the last separator in `path`, or -1 if it has none.
pub open spec fn last_separator(path: Seq<char>) -> int
    decreases path.len(),
{
    if path.len() == 0 {
        -1
    } else if path.last() == SEPARATOR {
        path.len() - 1
    } else {
        last_separator(path.drop_last())
    }
}

/// The folder that holds `path`: what stands before its last separator,
/// whatever follows that separator, even nothing. A bare name lies in the
/// empty folder, a name directly under the root lies in the root, and
/// neither the empty path nor the root has a parent.
pub open spec fn parent_of(path: Seq<char>) -> Option<Seq<char>> {
    let at = last_separator(path);
    if path.len() == 0 {
        None
    } else if at < 0 {
        Some(Seq::empty())
    } else if at == 0 {
        if path.len() == 1 {
            None
        } else {
            Some(seq![SEPARATOR])
        }
    } else {
        Some(path.subrange(0, at))
    }
}

/// Whether `path` starts at the root.
pub fn is_absolute(path: &str) -> (b: bool)
    ensures
        b == absolute(path@),
{
    path.unicode_len() > 0 && path.get_char(0) == SEPARATOR
}

/// Resolves `path` against `base`.
pub fn join(base: &str, path: &str) -> (full: String)
    ensures
        full@ == joined(base@, path@),
{
    let base_len = base.unicode_len();
    if is_absolute(path) || base_len == 0 {
        String::from_str(path)
    } else if base.get_char(base_len - 1) == SEPARATOR {
        String::from_str(base).concat(path)
    } else {
        proof {
            reveal_strlit("/");
            assert("/"@ =~= seq![SEPARATOR]);
        }
        String::from_str(base).concat("/").concat(path)
    }
}

/// The folder that holds `path`, if it has one.
pub fn parent(path: &str) -> (folder: Option<String>)
    ensures
        match folder {
            Some(f) => parent_of(path@) == Some(f@),
            None => parent_of(path@).is_none(),
        },
{
    let len = path.unicode_len();
    let mut found = false;
    let mut at: usize = 0;
    let mut i: usize = 0;
    while i < len
        invariant
            i <= len,
            len == path@.len(),
            found ==> at < i && at == last_separator(path@.subrange(0, i as int)),
            !found ==> last_separator(path@.subrange(0, i as int)) == -1,
        decreases len - i,
    {
        proof {
            assert(path@.subrange(0, i + 1).drop_last() =~= path@.subrange(0, i as int));
        }
        if path.get_char(i) == SEPARATOR {
            found = true;
            at = i;
        }
        i += 1;
    }
    proof {
        assert(path@.subrange(0, len as int) =~= path@);
    }
    if len == 0 {
        None
    } else if !found {
        Some(String::new())
    } else if at == 0 {
        if len == 1 {
            None
        } else {
            proof {
                reveal_strlit("/");
                assert("/"@ =~= seq![SEPARATOR]);
            }
            Some(String::from_str("/"))
        }
    } else {
        Some(String::from_str(path.substring_char(0, at)))
    }
}

} // verus!
