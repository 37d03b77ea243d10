use vstd::prelude::*;

verus! {

/// `d` is the nearest ancestor that holds the manifest: `manifest_at[i]`
/// says whether the ancestor `i` levels above the start holds it.
pub open spec fn nearest_manifest(manifest_at: Seq<bool>, d: int) -> bool {
    &&& 0 <= d < manifest_at.len()
    &&& manifest_at[d]
    &&& forall|i: int| 0 <= i < d ==> !manifest_at[i]
}

/// Walks up from the start (index 0) towards the filesystem root (the last
/// index) and returns the depth of the first directory that holds the
/// manifest, or `None` when the root is passed without finding one.
pub fn find_crate_root(manifest_at: &[bool]) -> (r: Option<usize>)
    ensures
        r matches Some(d) ==> nearest_manifest(manifest_at@, d as int),
        r is None <==> forall|i: int| 0 <= i < manifest_at@.len() ==> !manifest_at@[i],
{
    let mut depth: usize = 0;
    while depth < manifest_at.len()
        invariant
            depth <= manifest_at@.len(),
            forall|i: int| 0 <= i < depth ==> !manifest_at@[i],
        decreases manifest_at@.len() - depth,
    {
        if manifest_at[depth] {
            return Some(depth);
        }
        depth += 1;
    }
    None
}

/// The nearest ancestor is unique: the search result is determined by the
/// depth at which the manifest first appears.
pub proof fn lemma_nearest_unique(manifest_at: Seq<bool>, d1: int, d2: int)
    requires
        nearest_manifest(manifest_at, d1),
        nearest_manifest(manifest_at, d2),
    ensures
        d1 == d2,
{
    if d1 < d2 {
        assert(!manifest_at[d1]);
    } else if d2 < d1 {
        assert(!manifest_at[d2]);
    }
}

} // verus!
