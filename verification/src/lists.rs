//! Pagination values for the list endpoints around the core.

use vstd::prelude::*;

verus! {

/// A database row identifier.
#[derive(Debug, Clone)]
pub struct DbId {
    id: i64,
}

impl DbId {
    /// The wrapped identifier, as a specification value.
    pub closed spec fn spec_value(&self) -> i64 {
        self.id
    }

    /// Wraps a row identifier.
    pub fn new(id: i64) -> (r: DbId)
        ensures
            r.spec_value() == id,
    {
        DbId { id }
    }

    /// The wrapped identifier.
    pub fn value(&self) -> (r: i64)
        ensures
            r == self.spec_value(),
    {
        self.id
    }
}

/// Sort direction of a page.
#[derive(Debug, Clone, PartialEq, Eq)]
pub enum SortOrder {
    Asc,
    Desc,
}

/// A sort request: a property name and a direction.
#[derive(Debug, Clone)]
pub struct PageSort {
    pub property: String,
    pub direction: SortOrder,
}

/// The paging query parameters of a list request; absent values are
/// filled in by [`PageOptions::defaulting`].
#[derive(Debug, Clone)]
pub struct PageOptions {
    pub page: Option<i64>,
    pub size: Option<i64>,
    pub sort: Option<i64>,
}

impl Default for PageOptions {
    /// The first page of five entries, unsorted.
    fn default() -> (r: PageOptions)
        ensures
            r.size == Some(5i64),
            r.page == Some(0i64),
            r.sort == None::<i64>,
    {
        PageOptions { size: Some(5), page: Some(0), sort: None }
    }
}

impl PageOptions {
    /// Fills each absent field of `inval` with its default: a present
    /// value is kept exactly, an absent one becomes the default page,
    /// size or sort.
    pub fn defaulting(inval: PageOptions) -> (r: PageOptions)
        ensures
            r.size == (if inval.size is Some {
                inval.size
            } else {
                Some(5i64)
            }),
            r.page == (if inval.page is Some {
                inval.page
            } else {
                Some(0i64)
            }),
            r.sort == inval.sort,
    {
        PageOptions {
            size: if inval.size.is_some() {
                inval.size
            } else {
                PageOptions::default().size
            },
            page: if inval.page.is_some() {
                inval.page
            } else {
                PageOptions::default().page
            },
            sort: if inval.sort.is_some() {
                inval.sort
            } else {
                PageOptions::default().sort
            },
        }
    }
}

/// One page of row identifiers together with the options that produced
/// it.
#[derive(Debug)]
pub struct ListPages {
    pub ids: Vec<i64>,
    pub pagination: PageOptions,
}

} // verus!
