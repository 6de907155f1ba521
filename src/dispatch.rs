//! Choice of the handler for a request path: the first registered prefix
//! that the path starts with.
use vstd::prelude::*;

verus! {

/// `path` starts with `p`.
pub open spec fn has_prefix(path: Seq<u8>, p: Seq<u8>) -> bool {
    p.len() <= path.len() && forall|k: int| 0 <= k < p.len() ==> path[k] == p[k]
}

/// `r` is the index of the first prefix in `ps` that `path` starts with, or
/// `None` when there is none.
pub open spec fn first_match(ps: Seq<Seq<u8>>, path: Seq<u8>, r: Option<usize>) -> bool {
    match r {
        Some(i) => {
            &&& i < ps.len()
            &&& has_prefix(path, ps[i as int])
            &&& forall|j: int| 0 <= j < i ==> !has_prefix(path, #[trigger] ps[j])
        },
        None => forall|j: int| 0 <= j < ps.len() ==> !has_prefix(path, #[trigger] ps[j]),
    }
}

/// The contents of each prefix, in registration order.
pub open spec fn prefix_views(ps: Seq<Vec<u8>>) -> Seq<Seq<u8>> {
    Seq::new(ps.len(), |i: int| ps[i]@)
}

/// Whether `path` starts with `p`.
pub fn starts_with(path: &[u8], p: &Vec<u8>) -> (r: bool)
    ensures
        r == has_prefix(path@, p@),
{
    if p.len() > path.len() {
        return false;
    }
    let mut k: usize = 0;
    while k < p.len()
        invariant
            p@.len() <= path@.len(),
            k <= p@.len(),
            forall|m: int| 0 <= m < k ==> path@[m] == p@[m],
        decreases p@.len() - k,
    {
        if path[k] != p[k] {
            return false;
        }
        k = k + 1;
    }
    true
}

/// The handler for `path`: the index of the first prefix, in registration
/// order, that `path` starts with, or `None` (the not-found reply).
pub fn dispatch(prefixes: &Vec<Vec<u8>>, path: &[u8]) -> (r: Option<usize>)
    ensures
        first_match(prefix_views(prefixes@), path@, r),
{
    let ghost ps = prefix_views(prefixes@);
    let mut i: usize = 0;
    while i < prefixes.len()
        invariant
            ps == prefix_views(prefixes@),
            i <= prefixes@.len(),
            forall|j: int| 0 <= j < i ==> !has_prefix(path@, #[trigger] ps[j]),
        decreases prefixes@.len() - i,
    {
        if starts_with(path, &prefixes[i]) {
            return Some(i);
        }
        i = i + 1;
    }
    None
}

/// A request path is served by at most one handler: the first match is
/// unique.
pub proof fn lemma_dispatch_unique(
    ps: Seq<Seq<u8>>,
    path: Seq<u8>,
    a: Option<usize>,
    b: Option<usize>,
)
    requires
        first_match(ps, path, a),
        first_match(ps, path, b),
    ensures
        a == b,
{
    match (a, b) {
        (Some(i), Some(j)) => {
            if i < j {
                assert(has_prefix(path, ps[i as int]));
            } else if j < i {
                assert(has_prefix(path, ps[j as int]));
            }
        },
        (Some(i), None) => {
            assert(has_prefix(path, ps[i as int]));
        },
        (None, Some(j)) => {
            assert(has_prefix(path, ps[j as int]));
        },
        (None, None) => {},
    }
}

} // verus!
