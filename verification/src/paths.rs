//! The path model.
//!
//! A path is a string; directory levels are separated by `/`, and a
//! well-formed directory path does not end in `/`. `joined(base, rel)` is
//! `base + "/" + rel`; a path `p` lies under a root when it is the root
//! itself or extends it by a `/` and a relative part. Mapping a live path to
//! its archive path replaces the configuration root by the backup directory,
//! and the mirror operation replaces it back.

use vstd::prelude::*;
use vstd::string::StrSliceExecFns;

verus! {

/// `base + "/" + rel`.
pub open spec fn joined(base: Seq<char>, rel: Seq<char>) -> Seq<char> {
    base + seq!['/'] + rel
}

/// Whether `p` lies under `root`: it is `root` itself, or `root` followed by
/// `/` and the relative remainder.
pub open spec fn under_root(root: Seq<char>, p: Seq<char>) -> bool {
    ||| p == root
    ||| (p.len() >= root.len() + 1 && p.subrange(0, root.len() as int + 1) == root + seq!['/'])
}

/// The remainder of `p` below `root` (empty when `p` is `root` itself).
pub open spec fn rel_below(root: Seq<char>, p: Seq<char>) -> Seq<char> {
    if p == root {
        Seq::empty()
    } else {
        p.subrange(root.len() as int + 1, p.len() as int)
    }
}

/// The path `p`, lying under `from_root`, carried over to `to_root`: the
/// root is exchanged, the relative remainder kept.
pub open spec fn mapped(to_root: Seq<char>, from_root: Seq<char>, p: Seq<char>) -> Seq<char> {
    if p == from_root {
        to_root
    } else {
        joined(to_root, rel_below(from_root, p))
    }
}

/// Carrying a path under `from_root` over to `to_root` and back restores it:
/// the backup of a live path restores to the live path.
pub proof fn lemma_mapped_round_trip(to_root: Seq<char>, from_root: Seq<char>, p: Seq<char>)
    requires
        under_root(from_root, p),
    ensures
        under_root(to_root, mapped(to_root, from_root, p)),
        mapped(from_root, to_root, mapped(to_root, from_root, p)) == p,
{
    if p == from_root {
    } else {
        let rel = rel_below(from_root, p);
        let m = mapped(to_root, from_root, p);
        assert(m.subrange(0, to_root.len() as int + 1) =~= to_root + seq!['/']);
        assert(m != to_root) by {
            assert(m.len() > to_root.len());
        }
        assert(rel_below(to_root, m) =~= rel);
        assert(joined(from_root, rel) =~= p) by {
            assert(p.subrange(0, from_root.len() as int + 1) == from_root + seq!['/']);
            assert(forall|i: int|
                0 <= i < from_root.len() + 1 ==> p[i] == (from_root + seq!['/'])[i]);
        }
    }
}

/// Exact string equality of two string slices.
pub fn str_eq(a: &str, b: &str) -> (r: bool)
    ensures
        r == (a@ == b@),
{
    let sa: String = a.to_owned();
    let sb: String = b.to_owned();
    sa == sb
}

/// Whether `s` begins with `pre`.
pub fn str_starts_with(s: &str, pre: &str) -> (r: bool)
    ensures
        r == (s@.len() >= pre@.len() && s@.subrange(0, pre@.len() as int) == pre@),
{
    let n = pre.unicode_len();
    if s.unicode_len() < n {
        return false;
    }
    let mut i: usize = 0;
    while i < n
        invariant
            0 <= i <= n,
            n == pre@.len(),
            s@.len() >= n,
            forall|j: int| 0 <= j < i ==> s@[j] == pre@[j],
        decreases n - i,
    {
        if s.get_char(i) != pre.get_char(i) {
            assert(s@.subrange(0, pre@.len() as int) != pre@) by {
                assert(s@.subrange(0, pre@.len() as int)[i as int] != pre@[i as int]);
            }
            return false;
        }
        i += 1;
    }
    assert(s@.subrange(0, pre@.len() as int) =~= pre@);
    true
}

/// `base + "/" + rel` as an executable operation.
pub fn join_path(base: &str, rel: &str) -> (r: String)
    ensures
        r@ == joined(base@, rel@),
{
    proof {
        reveal_strlit("/");
        assert("/"@ =~= seq!['/']);
    }
    let out: String = base.to_owned();
    let out = out.concat("/");
    let out = out.concat(rel);
    assert(out@ =~= joined(base@, rel@));
    out
}

/// Whether the path lies under the root, as `under_root` states it.
pub fn is_under_root(root: &str, p: &str) -> (r: bool)
    ensures
        r == under_root(root@, p@),
{
    if str_eq(p, root) {
        return true;
    }
    let prefix = join_path(root, "");
    proof {
        reveal_strlit("");
        assert(prefix@ =~= root@ + seq!['/']);
    }
    str_starts_with(p, prefix.as_str())
}

/// The path under `from_root` carried over to `to_root`.
pub fn map_path(to_root: &str, from_root: &str, p: &str) -> (r: String)
    requires
        under_root(from_root@, p@),
    ensures
        r@ == mapped(to_root@, from_root@, p@),
{
    if str_eq(p, from_root) {
        to_root.to_owned()
    } else {
        let end = p.unicode_len();
        assert(from_root@.len() + 1 <= p@.len());
        let start = from_root.unicode_len() + 1;
        let rel = p.substring_char(start, end);
        assert(rel@ =~= rel_below(from_root@, p@));
        join_path(to_root, rel)
    }
}

/// The directory containing `p`: the part before the last `/`, the root
/// directory `/` when that slash opens the path, and nothing when the path
/// has no `/` at all.
pub open spec fn parent_dir(p: Seq<char>) -> Option<Seq<char>> {
    if exists|j: int| 0 <= j < p.len() && p[j] == '/' {
        let j = last_slash(p);
        if j == 0 {
            Some(seq!['/'])
        } else {
            Some(p.subrange(0, j))
        }
    } else {
        None
    }
}

/// The position of the last `/` of `p` (meaningful only when one exists).
pub open spec fn last_slash(p: Seq<char>) -> int {
    choose|j: int|
        0 <= j < p.len() && p[j] == '/' && (forall|k: int| j < k < p.len() ==> p[k] != '/')
}

/// The last slash, characterized as above, is unique.
proof fn lemma_last_slash_unique(p: Seq<char>, j: int)
    requires
        0 <= j < p.len(),
        p[j] == '/',
        forall|k: int| j < k < p.len() ==> p[k] != '/',
    ensures
        last_slash(p) == j,
{
    let c = last_slash(p);
    assert(0 <= c < p.len() && p[c] == '/' && (forall|k: int| c < k < p.len() ==> p[k] != '/'))
        by {
        assert(0 <= j < p.len() && p[j] == '/' && (forall|k: int|
            j < k < p.len() ==> p[k] != '/'));
    }
    if c < j {
        assert(p[j] != '/');
    }
    if j < c {
        assert(p[c] != '/');
    }
}

/// The directory containing `p`, as `parent_dir` states it.
pub fn parent_of(p: &str) -> (r: Option<String>)
    ensures
        match r {
            Some(par) => parent_dir(p@) matches Some(q) && par@ == q,
            None => parent_dir(p@) is None,
        },
{
    let n = p.unicode_len();
    let mut j: usize = 0;
    let mut found = false;
    let mut i: usize = 0;
    while i < n
        invariant
            0 <= i <= n,
            n == p@.len(),
            !found ==> (forall|k: int| 0 <= k < i ==> p@[k] != '/'),
            found ==> (0 <= j < i && p@[j as int] == '/' && (forall|k: int|
                j < k < i ==> p@[k] != '/')),
        decreases n - i,
    {
        if p.get_char(i) == '/' {
            found = true;
            j = i;
        }
        i += 1;
    }
    if !found {
        return None;
    }
    proof {
        lemma_last_slash_unique(p@, j as int);
    }
    if j == 0 {
        proof {
            reveal_strlit("/");
            assert("/"@ =~= seq!['/']);
        }
        Some("/".to_owned())
    } else {
        Some(p.substring_char(0, j).to_owned())
    }
}

/// A user-supplied path with its home-relative prefix resolved: `~` is the
/// home directory, `~/rest` is `rest` under the home directory, and anything
/// else is returned unchanged.
pub open spec fn expanded(raw: Seq<char>, home: Seq<char>) -> Seq<char> {
    if raw == seq!['~'] {
        home
    } else if raw.len() >= 2 && raw.subrange(0, 2) == seq!['~', '/'] {
        joined(home, raw.subrange(2, raw.len() as int))
    } else {
        raw
    }
}

/// Resolves a possibly home-relative path string against the home directory.
pub fn expanduser(raw: &str, home: &str) -> (r: String)
    ensures
        r@ == expanded(raw@, home@),
{
    proof {
        reveal_strlit("~");
        reveal_strlit("~/");
        assert("~"@ =~= seq!['~']);
        assert("~/"@ =~= seq!['~', '/']);
    }
    if str_eq(raw, "~") {
        return home.to_owned();
    }
    if str_starts_with(raw, "~/") {
        let rest = raw.substring_char(2, raw.unicode_len());
        let out = join_path(home, rest);
        assert(out@ =~= expanded(raw@, home@));
        out
    } else {
        raw.to_owned()
    }
}

} // verus!
