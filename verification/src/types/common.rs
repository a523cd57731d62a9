//! What several resources share.

use vstd::prelude::*;
use crate::encoding::{flag_pair, number_pair, pairs_text, push_flag_pair, push_number_pair};

verus! {

/// The paging of a list request.
#[derive(Debug, Clone, Default)]
pub struct PaginationParams {
    pub page: Option<u32>,
    pub per_page: Option<u32>,
    pub include_totals: Option<bool>,
}

impl PaginationParams {
    /// The names and values of the query, in the order in which they are
    /// written: one pair for each field that is set.
    pub open spec fn query_pairs(self) -> Seq<(Seq<char>, Seq<char>)> {
        number_pair("page"@, self.page)
            + number_pair("per_page"@, self.per_page)
            + flag_pair("include_totals"@, self.include_totals)
    }

    /// Lists the names and values of the query.
    pub fn to_pairs(&self) -> (pairs: Vec<(String, String)>)
        ensures
            pairs_text(pairs@) == self.query_pairs(),
    {
        let mut pairs: Vec<(String, String)> = Vec::new();
        assert(pairs_text(pairs@) =~= Seq::empty());
        push_number_pair(&mut pairs, "page", &self.page);
        push_number_pair(&mut pairs, "per_page", &self.per_page);
        push_flag_pair(&mut pairs, "include_totals", &self.include_totals);
        assert(pairs_text(pairs@) =~= self.query_pairs());
        pairs
    }
}

/// One page of a list, with where it stands in the whole.
#[derive(Debug, Clone)]
pub struct PaginatedResponse<T> {
    pub items: Vec<T>,
    pub start: Option<u32>,
    pub limit: Option<u32>,
    pub total: Option<u32>,
}

} // verus!
