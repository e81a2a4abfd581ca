use vstd::prelude::*;

verus! {

/// A page of a listing: its number, from 1, and how many items a page holds.
pub struct Pager {
    pub page: i64,
    pub limit: i64,
}

impl Pager {
    /// Page 1 and 20 items a page, unless given.
    pub fn new(page: Option<i64>, limit: Option<i64>) -> (r: Pager)
        ensures
            r.page == (match page {
                Some(p) => p,
                None => 1,
            }),
            r.limit == (match limit {
                Some(l) => l,
                None => 20,
            }),
    {
        Pager {
            page: match page {
                Some(p) => p,
                None => 1,
            },
            limit: match limit {
                Some(l) => l,
                None => 20,
            },
        }
    }

    /// How many items come before the page.
    pub fn offset(&self) -> (r: i64)
        requires
            i64::MIN <= (self.page - 1) * self.limit <= i64::MAX,
            self.page - 1 >= i64::MIN,
        ensures
            r == (self.page - 1) * self.limit,
    {
        (self.page - 1) * self.limit
    }
}

} // verus!
