//! Path derivation for the export: joining a base path, a separator and a
//! component, and finding the directory part of a derived path. Bucket
//! names and object keys are opaque character sequences; nothing here
//! normalizes, escapes or validates them.

use vstd::prelude::*;
use vstd::string::StrSliceExecFns;
use vstd::string::StringExecFns;

verus! {

/// `base`, then the separator, then `name`: the exact character sequence
/// of a joined path. No normalization is applied to either side.
pub open spec fn joined(base: Seq<char>, sep: char, name: Seq<char>) -> Seq<char> {
    base + seq![sep] + name
}

/// Index of the last occurrence of `sep` in `s`, or -1 when `s` does not
/// contain it.
pub open spec fn last_sep_at(s: Seq<char>, sep: char) -> int
    decreases s.len(),
{
    if s.len() == 0 {
        -1
    } else if s[s.len() - 1] == sep {
        s.len() - 1
    } else {
        last_sep_at(s.drop_last(), sep)
    }
}

/// The characters strictly before the last occurrence of `sep` in `s`:
/// the directory part of a path. Meaningful only when `s` contains `sep`.
pub open spec fn dir_prefix(s: Seq<char>, sep: char) -> Seq<char> {
    s.subrange(0, last_sep_at(s, sep))
}

/// The directory part of a path, if the path contains the separator at all.
pub open spec fn parent_of(s: Seq<char>, sep: char) -> Option<Seq<char>> {
    if last_sep_at(s, sep) >= 0 {
        Some(dir_prefix(s, sep))
    } else {
        None
    }
}

/// `last_sep_at` points at a separator, and nothing after it is one.
pub proof fn lemma_last_sep_at_props(s: Seq<char>, sep: char)
    ensures
        -1 <= last_sep_at(s, sep) < s.len(),
        last_sep_at(s, sep) >= 0 ==> s[last_sep_at(s, sep)] == sep,
        forall|j: int| last_sep_at(s, sep) < j < s.len() ==> s[j] != sep,
    decreases s.len(),
{
    if s.len() == 0 {
    } else if s[s.len() - 1] == sep {
    } else {
        lemma_last_sep_at_props(s.drop_last(), sep);
        assert(forall|j: int| 0 <= j < s.len() - 1 ==> s[j] == s.drop_last()[j]);
    }
}

/// Any separator position with no separator after it is `last_sep_at`.
pub proof fn lemma_last_sep_at_unique(s: Seq<char>, sep: char, i: int)
    requires
        0 <= i < s.len(),
        s[i] == sep,
        forall|j: int| i < j < s.len() ==> s[j] != sep,
    ensures
        last_sep_at(s, sep) == i,
{
    lemma_last_sep_at_props(s, sep);
    let l = last_sep_at(s, sep);
    if l < i {
        assert(s[i] != sep);
    } else if l > i {
        assert(s[l] != sep);
    }
}

/// A joined path always has a directory part, and it begins no earlier
/// than the final separator the join itself inserted.
pub proof fn lemma_joined_has_parent(base: Seq<char>, sep: char, name: Seq<char>)
    ensures
        parent_of(joined(base, sep, name), sep) is Some,
        last_sep_at(joined(base, sep, name), sep) >= base.len(),
{
    let s = joined(base, sep, name);
    lemma_last_sep_at_props(s, sep);
    assert(s[base.len() as int] == sep);
    if last_sep_at(s, sep) < base.len() {
        assert(s[base.len() as int] != sep);
    }
}

/// A key that itself contains separators nests below the joined base: the
/// directory part of `base + sep + key` is `base + sep +` (the key up to
/// the key's own last separator).
pub proof fn lemma_nested_key_dirs(base: Seq<char>, sep: char, key: Seq<char>)
    requires
        last_sep_at(key, sep) >= 0,
    ensures
        parent_of(joined(base, sep, key), sep) == Some(
            joined(base, sep, key.subrange(0, last_sep_at(key, sep))),
        ),
{
    let s = joined(base, sep, key);
    let j = last_sep_at(key, sep);
    lemma_last_sep_at_props(key, sep);
    let i = base.len() + 1 + j;
    assert(s[i] == key[j]);
    assert forall|t: int| i < t < s.len() implies s[t] != sep by {
        assert(s[t] == key[t - base.len() - 1]);
    }
    lemma_last_sep_at_unique(s, sep, i);
    assert(s.subrange(0, i) =~= joined(base, sep, key.subrange(0, j)));
}

/// A key without separators lands directly in the base directory: the
/// directory part of `base + sep + key` is `base` itself.
pub proof fn lemma_flat_key_dirs(base: Seq<char>, sep: char, key: Seq<char>)
    requires
        last_sep_at(key, sep) == -1,
    ensures
        parent_of(joined(base, sep, key), sep) == Some(base),
{
    let s = joined(base, sep, key);
    lemma_last_sep_at_props(key, sep);
    let i = base.len() as int;
    assert(s[i] == sep);
    assert forall|t: int| i < t < s.len() implies s[t] != sep by {
        assert(s[t] == key[t - base.len() - 1]);
    }
    lemma_last_sep_at_unique(s, sep, i);
    assert(s.subrange(0, i) =~= base);
}

/// Relies on String::push: appends exactly the given character.
#[verifier::external_body]
pub(crate) fn push_char(s: &mut String, c: char)
    ensures
        final(s)@ == old(s)@ + seq![c],
{
    s.push(c);
}

/// Join one more component onto a path: `base`, then `sep`, then `name`,
/// with no normalization of either side.
pub fn join_path(base: &str, sep: char, name: &str) -> (r: String)
    ensures
        r@ == joined(base@, sep, name@),
{
    let mut r = base.to_owned();
    push_char(&mut r, sep);
    r.append(name);
    proof {
        assert(r@ =~= joined(base@, sep, name@));
    }
    r
}

/// Index of the last occurrence of `sep` in `path`, or `None` when the
/// path does not contain it.
pub fn last_sep_index(path: &str, sep: char) -> (r: Option<usize>)
    ensures
        match r {
            Some(i) => i == last_sep_at(path@, sep),
            None => last_sep_at(path@, sep) == -1,
        },
{
    let n = path.unicode_len();
    let mut k = n;
    while k > 0
        invariant
            k <= n,
            n == path@.len(),
            forall|j: int| k <= j < path@.len() ==> path@[j] != sep,
        decreases k,
    {
        k = k - 1;
        if path.get_char(k) == sep {
            proof {
                lemma_last_sep_at_unique(path@, sep, k as int);
            }
            return Some(k);
        }
    }
    proof {
        lemma_last_sep_at_props(path@, sep);
    }
    None
}

/// The path up to (and excluding) the last separator, or `None` when the
/// path contains no separator. For the paths the export builds — which
/// always contain at least one separator — this is the directory that
/// must exist before the file can be written.
pub fn parent_dir(path: &str, sep: char) -> (r: Option<String>)
    ensures
        match r {
            Some(p) => parent_of(path@, sep) == Some(p@),
            None => parent_of(path@, sep) is None,
        },
{
    match last_sep_index(path, sep) {
        Some(i) => {
            proof {
                lemma_last_sep_at_props(path@, sep);
            }
            let p = path.substring_char(0, i);
            Some(p.to_owned())
        },
        None => None,
    }
}

} // verus!
