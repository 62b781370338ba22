//! Relative-path logic: stripping the source root from a walked path and
//! resolving the same relative path under the target root.

use vstd::prelude::*;

use crate::bytes::push_all;

verus! {

/// True when `prefix` is an initial segment of `s`.
pub open spec fn is_prefix_of(prefix: Seq<u8>, s: Seq<u8>) -> bool {
    prefix.len() <= s.len() && s.take(prefix.len() as int) == prefix
}

/// One trailing path separator is dropped from a root, so that a relative
/// path can be appended verbatim.
pub open spec fn spec_normalize_root(s: Seq<u8>) -> Seq<u8> {
    if s.len() > 0 && s.last() == 47u8 {
        s.drop_last()
    } else {
        s
    }
}

/// Drops one trailing `/` from a root path, if present.
pub fn normalize_root(root: &Vec<u8>) -> (r: Vec<u8>)
    ensures
        r@ == spec_normalize_root(root@),
{
    let mut r = crate::bytes::copy_bytes(root);
    if r.len() > 0 && r[r.len() - 1] == 47u8 {
        r.pop();
        proof {
            assert(r@ =~= spec_normalize_root(root@));
        }
    }
    r
}

/// Strips the source root from a walked absolute path, leaving the
/// root-independent relative path that pairs the entry between the two trees.
/// Returns `None` exactly when `root` is not a prefix of `path`.
pub fn strip_root_prefix(path: &Vec<u8>, root: &Vec<u8>) -> (r: Option<Vec<u8>>)
    ensures
        match r {
            Some(rel) => is_prefix_of(root@, path@) && rel@ == path@.skip(root@.len() as int),
            None => !is_prefix_of(root@, path@),
        },
{
    if path.len() < root.len() {
        return None;
    }
    let mut i: usize = 0;
    while i < root.len()
        invariant
            i <= root@.len() <= path@.len(),
            forall|j: int| 0 <= j < i ==> path@[j] == root@[j],
        decreases root@.len() - i,
    {
        if path[i] != root[i] {
            proof {
                assert(path@.take(root@.len() as int)[i as int] != root@[i as int]);
            }
            return None;
        }
        i += 1;
    }
    let mut rel: Vec<u8> = Vec::new();
    let mut k: usize = root.len();
    while k < path.len()
        invariant
            root@.len() <= k <= path@.len(),
            rel@ == path@.subrange(root@.len() as int, k as int),
        decreases path@.len() - k,
    {
        rel.push(path[k]);
        proof {
            assert(path@.subrange(root@.len() as int, k as int + 1) =~= path@.subrange(
                root@.len() as int,
                k as int,
            ).push(path@[k as int]));
        }
        k += 1;
    }
    proof {
        assert(path@.take(root@.len() as int) =~= root@);
        assert(rel@ =~= path@.skip(root@.len() as int));
    }
    Some(rel)
}

/// A relative path pairs the same entry between the two trees: joining the
/// root back onto the stripped path restores the walked path verbatim.
pub proof fn lemma_strip_join_round_trip(root: Seq<u8>, path: Seq<u8>)
    requires
        is_prefix_of(root, path),
    ensures
        root + path.skip(root.len() as int) == path,
{
    assert(root + path.skip(root.len() as int) =~= path);
}

/// Appends a relative path to a root: the probe path for the same entry
/// under the other tree.
pub fn join_paths(root: &Vec<u8>, rel: &Vec<u8>) -> (r: Vec<u8>)
    ensures
        r@ == root@ + rel@,
{
    let mut r: Vec<u8> = Vec::new();
    push_all(&mut r, root);
    push_all(&mut r, rel);
    proof {
        assert(r@ =~= root@ + rel@);
    }
    r
}

} // verus!
