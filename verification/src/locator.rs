//! Resource Locator: the first existing candidate wins; order encodes
//! priority between the primary and alternate bundled layouts.

use vstd::prelude::*;

verus! {

/// One candidate location. The host shell has already resolved the relative
/// candidate against the bundled-resource base directory and checked the
/// filesystem: `path` is the resolved path, `exists` the check's result. A
/// candidate the shell could not resolve at all is handed in with `exists`
/// false.
#[derive(Clone, Debug, PartialEq, Eq)]
pub struct ResolvedCandidate {
    pub path: String,
    pub exists: bool,
}

/// No candidate in the list exists on disk.
pub open spec fn no_candidate_exists(cands: Seq<ResolvedCandidate>) -> bool {
    forall|j: int| 0 <= j < cands.len() ==> !cands[j].exists
}

/// Index `i` holds the first existing candidate of the list.
pub open spec fn first_existing(cands: Seq<ResolvedCandidate>, i: int) -> bool {
    &&& 0 <= i < cands.len()
    &&& cands[i].exists
    &&& forall|j: int| 0 <= j < i ==> !cands[j].exists
}

/// At most one index can be the first existing candidate.
pub proof fn lemma_first_existing_unique(cands: Seq<ResolvedCandidate>, i: int, j: int)
    requires
        first_existing(cands, i),
        first_existing(cands, j),
    ensures
        i == j,
{
}

/// Return the index of the first existing candidate, or nothing when no
/// candidate exists. Earlier candidates take priority even when several
/// exist.
pub fn locate_first(cands: &Vec<ResolvedCandidate>) -> (r: Option<usize>)
    ensures
        match r {
            Some(i) => first_existing(cands@, i as int),
            None => no_candidate_exists(cands@),
        },
{
    let mut i: usize = 0;
    while i < cands.len()
        invariant
            i <= cands@.len(),
            forall|j: int| 0 <= j < i ==> !cands@[j].exists,
        decreases cands@.len() - i,
    {
        if cands[i].exists {
            return Some(i);
        }
        i = i + 1;
    }
    None
}

} // verus!
