//! What it means for one path to lie under another.
//!
//! A listing at `p` walks one level of the hierarchy: it yields the entries
//! strictly below `p` whose remainder holds no further separator. A scan
//! yields every entry strictly below `p`.

use vstd::prelude::*;

verus! {

/// `p` is a (not necessarily strict) prefix of `k`.
pub open spec fn is_prefix_of(p: Seq<char>, k: Seq<char>) -> bool {
    p.len() <= k.len() && k.subrange(0, p.len() as int) == p
}

/// `k` lies strictly below `p`: `p` is a proper prefix of `k`.
pub open spec fn is_descendant(p: Seq<char>, k: Seq<char>) -> bool {
    is_prefix_of(p, k) && p.len() < k.len()
}

/// `k` is a direct child of `p`: it lies strictly below `p` and its
/// remainder crosses no further `/` separator.
pub open spec fn is_child(p: Seq<char>, k: Seq<char>) -> bool {
    is_descendant(p, k) && (forall|i: int| p.len() <= i < k.len() ==> k[i] != '/')
}

/// Decides `is_prefix_of(p@, k@)`.
pub fn str_is_prefix_of(p: &str, k: &str) -> (r: bool)
    ensures
        r == is_prefix_of(p@, k@),
{
    let plen: usize = p.unicode_len();
    let klen: usize = k.unicode_len();
    if plen > klen {
        return false;
    }
    let mut i: usize = 0;
    while i < plen
        invariant
            i <= plen,
            plen <= klen,
            plen == p@.len(),
            klen == k@.len(),
            forall|j: int| 0 <= j < i ==> p@[j] == k@[j],
        decreases plen - i,
    {
        if p.get_char(i) != k.get_char(i) {
            return false;
        }
        i += 1;
    }
    proof {
        assert(k@.subrange(0, p@.len() as int) =~= p@);
    }
    true
}

/// Decides `is_descendant(p@, k@)`.
pub fn str_is_descendant(p: &str, k: &str) -> (r: bool)
    ensures
        r == is_descendant(p@, k@),
{
    str_is_prefix_of(p, k) && p.unicode_len() < k.unicode_len()
}

/// Decides `is_child(p@, k@)`.
pub fn str_is_child(p: &str, k: &str) -> (r: bool)
    ensures
        r == is_child(p@, k@),
{
    if !str_is_descendant(p, k) {
        return false;
    }
    let plen: usize = p.unicode_len();
    let klen: usize = k.unicode_len();
    let mut i: usize = plen;
    while i < klen
        invariant
            plen <= i <= klen,
            plen == p@.len(),
            klen == k@.len(),
            forall|j: int| plen <= j < i ==> k@[j] != '/',
        decreases klen - i,
    {
        if k.get_char(i) == '/' {
            return false;
        }
        i += 1;
    }
    true
}

} // verus!
