//! Lexical path resolution.
//!
//! Paths are strings whose components are separated by `/`. Nothing here
//! looks at a filesystem: a path is resolved, normalised and split by its
//! characters alone.

use crate::text::to_chars;
use vstd::prelude::*;

verus! {

/// Whether a path starts at the root.
pub open spec fn absolute(path: Seq<char>) -> bool {
    path.len() > 0 && path[0] == '/'
}

/// `path` without the separators at its end.
pub open spec fn without_separators(path: Seq<char>) -> Seq<char>
    decreases path.len(),
{
    if path.len() > 0 && path.last() == '/' {
        without_separators(path.drop_last())
    } else {
        path
    }
}

/// The normal form of a path: the separators at its end are removed. A path
/// made of separators only is the root and becomes a single separator.
pub open spec fn stripped(path: Seq<char>) -> Seq<char> {
    let kept = without_separators(path);
    if kept.len() == 0 && path.len() > 0 {
        seq!['/']
    } else {
        kept
    }
}

/// `base`, a separator and `raw`, in this order.
pub open spec fn joined(base: Seq<char>, raw: Seq<char>) -> Seq<char> {
    base + seq!['/'] + raw
}

/// The path that `raw` names when relative paths are taken to lie under
/// `base`: an absolute `raw` stands for itself, any other is joined under
/// `base`; either way the result is in normal form.
pub open spec fn resolved(raw: Seq<char>, base: Seq<char>) -> Seq<char> {
    if absolute(raw) {
        stripped(raw)
    } else {
        stripped(joined(base, raw))
    }
}

/// `path` without what stands at its end and names nothing: separators, and
/// components that are a single `.` and follow a separator. A `.` that is
/// the whole first component stays.
pub open spec fn without_tail(path: Seq<char>) -> Seq<char>
    decreases path.len(),
{
    if path.len() > 0 && path.last() == '/' {
        without_tail(path.drop_last())
    } else if path.len() >= 2 && path.last() == '.' && path[path.len() - 2] == '/' {
        without_tail(path.drop_last())
    } else {
        path
    }
}

/// `path` without the characters of its last component: what is left is
/// empty or ends with a separator.
pub open spec fn without_name(path: Seq<char>) -> Seq<char>
    decreases path.len(),
{
    if path.len() > 0 && path.last() != '/' {
        without_name(path.drop_last())
    } else {
        path
    }
}

/// The directory that holds the last component of `path`.
///
/// Separators at the end of a path and `.` components after its first
/// component name nothing and are passed over. A path that is then empty
/// has no last component and so no parent: the empty path and the root,
/// however the root is written (`/`, `//`, `/.`, `/./`). Otherwise the
/// parent is what stands before the last component, without what names
/// nothing at its end: the root for a component directly under the root, and
/// the empty path for a single relative component.
pub open spec fn parent_of(path: Seq<char>) -> Option<Seq<char>> {
    let named = without_tail(path);
    if named.len() == 0 {
        None
    } else {
        let before = without_name(named);
        let dir = without_tail(before);
        if dir.len() == 0 && before.len() > 0 {
            Some(seq!['/'])
        } else {
            Some(dir)
        }
    }
}

/// Whether `path` has a parent.
pub open spec fn has_parent(path: Seq<char>) -> bool {
    parent_of(path) is Some
}

/// Tells whether `path` starts at the root.
pub fn is_absolute(path: &str) -> (r: bool)
    ensures
        r == absolute(path@),
{
    !path.is_empty() && path.get_char(0) == '/'
}

/// Brings a directory path into normal form.
pub fn strip_dir(dir: String) -> (out: String)
    ensures
        out@ == stripped(dir@),
{
    let chars = to_chars(dir.as_str());
    let n: usize = chars.len();
    assert(dir@.take(n as int) == dir@);
    let mut end: usize = n;
    while end > 0 && chars[end - 1] == '/'
        invariant
            chars@ == dir@,
            end <= n,
            n == chars@.len(),
            without_separators(dir@) == without_separators(dir@.take(end as int)),
        decreases end,
    {
        proof {
            assert(dir@.take(end as int).drop_last() == dir@.take(end - 1));
        }
        end = end - 1;
    }
    if end == n {
        dir
    } else if end == 0 {
        let root = String::from_str("/");
        proof {
            reveal_strlit("/");
        }
        root
    } else {
        String::from_str(dir.as_str().substring_char(0, end))
    }
}

/// Resolves `raw` against `base`.
pub fn resolve(raw: &str, base: &str) -> (out: String)
    ensures
        out@ == resolved(raw@, base@),
{
    if is_absolute(raw) {
        strip_dir(String::from_str(raw))
    } else {
        let mut path = String::from_str(base);
        path.append("/");
        path.append(raw);
        proof {
            reveal_strlit("/");
            assert("/"@ == seq!['/']);
        }
        strip_dir(path)
    }
}

/// The length of `chars[..end]` without what names nothing at its end.
fn tail_start(chars: &Vec<char>, end: usize) -> (kept: usize)
    requires
        end <= chars@.len(),
    ensures
        kept <= end,
        chars@.take(kept as int) == without_tail(chars@.take(end as int)),
{
    let mut kept: usize = end;
    while kept > 0 && (chars[kept - 1] == '/'
        || (kept >= 2 && chars[kept - 1] == '.' && chars[kept - 2] == '/'))
        invariant
            kept <= end <= chars@.len(),
            without_tail(chars@.take(end as int)) == without_tail(chars@.take(kept as int)),
        decreases kept,
    {
        proof {
            assert(chars@.take(kept as int).drop_last() == chars@.take(kept - 1));
        }
        kept = kept - 1;
    }
    kept
}

/// The parent directory of `path`, if it has one.
pub fn parent(path: &str) -> (out: Option<String>)
    ensures
        out is Some == has_parent(path@),
        out matches Some(dir) ==> Some(dir@) == parent_of(path@),
{
    let chars = to_chars(path);
    let n: usize = chars.len();
    assert(path@.take(n as int) == path@);
    let end = tail_start(&chars, n);
    if end == 0 {
        return None;
    }
    let mut cut: usize = end;
    while cut > 0 && chars[cut - 1] != '/'
        invariant
            chars@ == path@,
            cut <= end <= n,
            n == chars@.len(),
            without_name(path@.take(end as int)) == without_name(path@.take(cut as int)),
        decreases cut,
    {
        proof {
            assert(path@.take(cut as int).drop_last() == path@.take(cut - 1));
        }
        cut = cut - 1;
    }
    let stop = tail_start(&chars, cut);
    if stop == 0 && cut > 0 {
        let root = String::from_str("/");
        proof {
            reveal_strlit("/");
        }
        Some(root)
    } else {
        Some(String::from_str(path.substring_char(0, stop)))
    }
}

} // verus!
