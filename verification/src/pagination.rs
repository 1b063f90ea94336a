//! The envelope in which every paged query is answered.

use vstd::prelude::*;

verus! {

/// One page of a larger result set: the results in the order the node gave
/// them, the cursor from which the next query continues, and whether there
/// are pages after and before this one.
#[derive(Clone, Debug, PartialEq, Eq)]
pub struct PaginatedResult<T, C> {
    pub cursor: Option<C>,
    pub results: Vec<T>,
    pub has_next_page: bool,
    pub has_previous_page: bool,
}

/// What a page holds, with its results as a mathematical sequence.
#[verifier::ext_equal]
pub struct Page<T, C> {
    pub cursor: Option<C>,
    pub has_next_page: bool,
    pub has_previous_page: bool,
    pub results: Seq<T>,
}

impl<T, C> View for PaginatedResult<T, C> {
    type V = Page<T, C>;

    open spec fn view(&self) -> Page<T, C> {
        Page {
            cursor: self.cursor,
            has_next_page: self.has_next_page,
            has_previous_page: self.has_previous_page,
            results: self.results@,
        }
    }
}

} // verus!
