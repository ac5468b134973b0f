//! Query-string paging: how many rows a list request may ask for, and from where.

use vstd::prelude::*;

verus! {

/// The `limit` and `skip` query parameters of a list request.
#[derive(Debug, Clone, Copy, Default)]
pub struct Pagination {
    pub limit: Option<u64>,
    pub skip: Option<u64>,
}

/// The page size granted for a requested `limit`: the default when absent,
/// otherwise the request clamped to `1..=MAX_LIMIT`.
pub open spec fn granted_limit(limit: Option<u64>) -> u64 {
    let asked = match limit {
        Some(l) => l,
        None => Pagination::DEFAULT_LIMIT,
    };
    if asked < 1 {
        1
    } else if asked > Pagination::MAX_LIMIT {
        Pagination::MAX_LIMIT
    } else {
        asked
    }
}

impl Pagination {
    /// Page size used when the request names none.
    pub const DEFAULT_LIMIT: u64 = 20;

    /// Largest page size a request can get.
    pub const MAX_LIMIT: u64 = 100;

    /// The page size to use.
    pub fn resolved_limit(self) -> (r: u64)
        ensures
            r == granted_limit(self.limit),
            1 <= r <= Pagination::MAX_LIMIT,
    {
        let asked = match self.limit {
            Some(l) => l,
            None => Pagination::DEFAULT_LIMIT,
        };
        if asked < 1 {
            1
        } else if asked > Pagination::MAX_LIMIT {
            Pagination::MAX_LIMIT
        } else {
            asked
        }
    }

    /// How many rows to skip: zero when absent.
    pub fn resolved_skip(self) -> (r: u64)
        ensures
            r == match self.skip {
                Some(s) => s,
                None => 0,
            },
    {
        match self.skip {
            Some(s) => s,
            None => 0,
        }
    }
}

/// Asking again for the page size that was granted is granted unchanged.
pub proof fn lemma_granted_limit_is_stable(limit: Option<u64>)
    ensures
        granted_limit(Some(granted_limit(limit))) == granted_limit(limit),
{
}

/// A limit already within `1..=MAX_LIMIT` is granted as asked.
pub proof fn lemma_limit_in_range_is_kept(limit: u64)
    requires
        1 <= limit <= Pagination::MAX_LIMIT,
    ensures
        granted_limit(Some(limit)) == limit,
{
}

/// Granting never lowers a larger request below a smaller one.
pub proof fn lemma_granted_limit_monotone(a: u64, b: u64)
    requires
        a <= b,
    ensures
        granted_limit(Some(a)) <= granted_limit(Some(b)),
{
}

} // verus!
