//! Paths as strings of `/`-separated components.
//!
//! The engine never touches the filesystem; a path is just the string the
//! watcher reported. What it needs of paths is a component-aware prefix
//! test (`/path/tmp` covers `/path/tmp/f.txt` but not `/path/tmp2`), a
//! join, and the distinction between absolute and relative paths.

use vstd::prelude::*;

verus! {

use vstd::string::StrSliceExecFns;

/// A path is absolute when it starts with the separator.
pub open spec fn spec_has_root(p: Seq<char>) -> bool {
    p.len() > 0 && p[0] == '/'
}

/// `pre` covers `p` when `p` is `pre` itself, or `p` continues `pre` at a
/// component boundary (the next character is the separator).
pub open spec fn spec_is_path_prefix(pre: Seq<char>, p: Seq<char>) -> bool {
    ||| p == pre
    ||| (pre.len() < p.len() && p.subrange(0, pre.len() as int) == pre && p[pre.len() as int]
        == '/')
}

/// Joining `base` with `rel`: an absolute `rel` stands alone; otherwise the
/// two are glued with exactly one separator between them.
pub open spec fn spec_path_join(base: Seq<char>, rel: Seq<char>) -> Seq<char> {
    if spec_has_root(rel) {
        rel
    } else if base.len() == 0 {
        rel
    } else if base[base.len() - 1] == '/' {
        base + rel
    } else {
        base + seq!['/'] + rel
    }
}

/// Whether `p` is an absolute path.
pub fn path_has_root(p: &str) -> (r: bool)
    ensures
        r == spec_has_root(p@),
{
    let n = p.unicode_len();
    if n == 0 {
        false
    } else {
        p.get_char(0) == '/'
    }
}

/// Joins `base` and `rel` as [`spec_path_join`] describes.
pub fn path_join(base: &str, rel: &str) -> (r: String)
    ensures
        r@ == spec_path_join(base@, rel@),
{
    if path_has_root(rel) {
        return rel.to_owned();
    }
    let n = base.unicode_len();
    if n == 0 {
        return rel.to_owned();
    }
    let mut r = base.to_owned();
    if base.get_char(n - 1) != '/' {
        r.append("/");
        proof {
            reveal_strlit("/");
            assert(r@ =~= base@ + seq!['/']);
        }
    }
    r.append(rel);
    proof {
        if base@[base@.len() - 1] != '/' {
            assert(r@ =~= base@ + seq!['/'] + rel@);
        }
    }
    r
}

/// Whether the components of `pre` are a prefix of the components of `p`,
/// the test `should_ignore` rests on.
pub fn path_starts_with(p: &str, pre: &str) -> (r: bool)
    ensures
        r == spec_is_path_prefix(pre@, p@),
{
    let np = p.unicode_len();
    let npre = pre.unicode_len();
    if npre > np {
        return false;
    }
    let mut i: usize = 0;
    while i < npre
        invariant
            0 <= i <= npre,
            npre <= np,
            np == p@.len(),
            npre == pre@.len(),
            forall|j: int| 0 <= j < i ==> p@[j] == pre@[j],
        decreases npre - i,
    {
        if p.get_char(i) != pre.get_char(i) {
            proof {
                assert(p@.subrange(0, pre@.len() as int)[i as int] == p@[i as int]);
            }
            return false;
        }
        i += 1;
    }
    if np == npre {
        proof {
            assert(p@ =~= pre@);
        }
        true
    } else {
        proof {
            assert(p@.subrange(0, pre@.len() as int) =~= pre@);
        }
        p.get_char(npre) == '/'
    }
}

/// Whether the characters of two string slices are equal.
pub fn str_eq(a: &str, b: &str) -> (r: bool)
    ensures
        r == (a@ == b@),
{
    let na = a.unicode_len();
    let nb = b.unicode_len();
    if na != nb {
        return false;
    }
    let mut i: usize = 0;
    while i < na
        invariant
            0 <= i <= na,
            na == a@.len(),
            na == b@.len(),
            forall|j: int| 0 <= j < i ==> a@[j] == b@[j],
        decreases na - i,
    {
        if a.get_char(i) != b.get_char(i) {
            return false;
        }
        i += 1;
    }
    proof {
        assert(a@ =~= b@);
    }
    true
}

} // verus!
