use vstd::prelude::*;
use vstd::string::*;

verus! {

/// A path is absolute when it starts at the root.
pub open spec fn is_absolute(p: Seq<char>) -> bool {
    p.len() > 0 && p[0] == '/'
}

/// `p` appended to `base`, as a POSIX path join does: an absolute `p`
/// replaces `base`; otherwise a separator is put between them unless
/// `base` is empty or already ends with one.
pub open spec fn join(base: Seq<char>, p: Seq<char>) -> Seq<char> {
    if is_absolute(p) {
        p
    } else if base.len() == 0 || base.last() == '/' {
        base + p
    } else {
        base + seq!['/'] + p
    }
}

/// Index of the last separator in `p`, or -1 when it holds none.
pub open spec fn last_sep(p: Seq<char>) -> int
    decreases p.len(),
{
    if p.len() == 0 {
        -1
    } else if p.last() == '/' {
        p.len() - 1
    } else {
        last_sep(p.drop_last())
    }
}

/// The directory that holds the entry named by a canonical path: what comes
/// before its last separator, the root for an entry at the root, and the
/// empty path for a bare name.
pub open spec fn parent(p: Seq<char>) -> Seq<char> {
    let k = last_sep(p);
    if k < 0 {
        Seq::empty()
    } else if k == 0 {
        seq!['/']
    } else {
        p.subrange(0, k)
    }
}

pub proof fn lemma_last_sep_bounds(p: Seq<char>)
    ensures
        -1 <= last_sep(p) < p.len(),
        last_sep(p) >= 0 ==> p[last_sep(p)] == '/',
    decreases p.len(),
{
    if p.len() > 0 && p.last() != '/' {
        lemma_last_sep_bounds(p.drop_last());
    }
}

/// The parent of a non-empty path that does not end with a separator is
/// shorter than the path.
pub proof fn lemma_parent_shorter(p: Seq<char>)
    requires
        p.len() > 0,
        p.last() != '/',
    ensures
        parent(p).len() < p.len(),
{
    lemma_last_sep_bounds(p);
    if last_sep(p) == 0 {
        assert(p.len() > 1);
    }
}

/// Joins `p` onto `base`.
pub fn join_path(base: &str, p: &str) -> (r: String)
    ensures
        r@ == join(base@, p@),
{
    proof {
        reveal_strlit("/");
    }
    if p.unicode_len() > 0 && p.get_char(0) == '/' {
        return String::from_str(p);
    }
    let n = base.unicode_len();
    if n == 0 || base.get_char(n - 1) == '/' {
        String::from_str(base).concat(p)
    } else {
        String::from_str(base).concat("/").concat(p)
    }
}

/// The directory that holds the entry named by the canonical path `p`.
pub fn parent_path(p: &str) -> (r: String)
    ensures
        r@ == parent(p@),
{
    let n = p.unicode_len();
    let mut i: usize = n;
    assert(p@.subrange(0, n as int) =~= p@);
    while i > 0
        invariant
            n == p@.len(),
            i <= n,
            last_sep(p@) == last_sep(p@.subrange(0, i as int)),
        ensures
            i == 0 || p@[i - 1] == '/',
            last_sep(p@) == last_sep(p@.subrange(0, i as int)),
        decreases i,
    {
        if p.get_char(i - 1) == '/' {
            break;
        }
        assert(p@.subrange(0, i as int).drop_last() =~= p@.subrange(0, i - 1));
        i = i - 1;
    }
    if i == 0 {
        assert(p@.subrange(0, 0) =~= Seq::<char>::empty());
        String::new()
    } else if i == 1 {
        assert(last_sep(p@) == 0);
        proof {
            reveal_strlit("/");
        }
        String::from_str("/")
    } else {
        let r = String::from_str(p.substring_char(0, i - 1));
        assert(last_sep(p@) == i - 1);
        r
    }
}

} // verus!
