//! Paging of the dashboard's findings list.
use vstd::prelude::*;

verus! {

/// Filters and paging of a findings listing.
pub struct FindingsQuery {
    pub severity: Option<String>,
    pub player: Option<String>,
    pub limit: Option<i64>,
    pub offset: Option<i64>,
}

impl FindingsQuery {
    /// Rows per page: the requested limit, 50 by default, at most 100.
    pub fn page_limit(&self) -> (r: i64)
        ensures
            r == (match self.limit {
                Some(l) => if l < 100 {
                    l
                } else {
                    100
                },
                None => 50,
            }),
    {
        match self.limit {
            Some(l) => if l < 100 {
                l
            } else {
                100
            },
            None => 50,
        }
    }

    /// Rows to skip: the requested offset, 0 by default.
    pub fn page_offset(&self) -> (r: i64)
        ensures
            r == (match self.offset {
                Some(o) => o,
                None => 0,
            }),
    {
        match self.offset {
            Some(o) => o,
            None => 0,
        }
    }
}

} // verus!
