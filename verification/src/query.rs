use vstd::prelude::*;

verus! {

/// The shape of the one similarity search a query issues: how many hits to
/// ask for, whether the store must rank exactly (no approximation), and
/// whether each hit carries its payload back.
#[derive(Debug, Clone, Copy, PartialEq, Eq, Structural)]
pub struct SearchPlan {
    pub limit: u64,
    pub exact: bool,
    pub with_payload: bool,
}

/// The query path's fixed plan: one top-K search with K = 10, exact mode on
/// (accuracy over speed), payload returned with every hit.
pub fn search_plan() -> (p: SearchPlan)
    ensures
        p.limit == crate::DEFAULT_TOP_K,
        p.exact,
        p.with_payload,
{
    SearchPlan { limit: crate::DEFAULT_TOP_K, exact: true, with_payload: true }
}

} // verus!
