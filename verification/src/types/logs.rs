//! Log events.

use vstd::prelude::*;
use crate::encoding::{
    flag_pair, number_pair, pairs_text, push_flag_pair, push_number_pair, push_text_pair, text_pair,
};

verus! {

/// What a list of log events is narrowed by.
#[derive(Debug, Clone, Default)]
pub struct ListLogsParams {
    pub page: Option<u32>,
    pub per_page: Option<u32>,
    pub sort: Option<String>,
    pub fields: Option<String>,
    pub include_fields: Option<bool>,
    pub include_totals: Option<bool>,
    pub q: Option<String>,
    pub from: Option<String>,
    pub take: Option<u32>,
}

impl ListLogsParams {
    /// The names and values of the query, in the order in which they are
    /// written: one pair for each field that is set.
    pub open spec fn query_pairs(self) -> Seq<(Seq<char>, Seq<char>)> {
        number_pair("page"@, self.page)
            + number_pair("per_page"@, self.per_page)
            + text_pair("sort"@, self.sort)
            + text_pair("fields"@, self.fields)
            + flag_pair("include_fields"@, self.include_fields)
            + flag_pair("include_totals"@, self.include_totals)
            + text_pair("q"@, self.q)
            + text_pair("from"@, self.from)
            + number_pair("take"@, self.take)
    }

    /// Lists the names and values of the query.
    pub fn to_pairs(&self) -> (pairs: Vec<(String, String)>)
        ensures
            pairs_text(pairs@) == self.query_pairs(),
    {
        let mut pairs: Vec<(String, String)> = Vec::new();
        assert(pairs_text(pairs@) =~= Seq::empty());
        push_number_pair(&mut pairs, "page", &self.page);
        push_number_pair(&mut pairs, "per_page", &self.per_page);
        push_text_pair(&mut pairs, "sort", &self.sort);
        push_text_pair(&mut pairs, "fields", &self.fields);
        push_flag_pair(&mut pairs, "include_fields", &self.include_fields);
        push_flag_pair(&mut pairs, "include_totals", &self.include_totals);
        push_text_pair(&mut pairs, "q", &self.q);
        push_text_pair(&mut pairs, "from", &self.from);
        push_number_pair(&mut pairs, "take", &self.take);
        assert(pairs_text(pairs@) =~= self.query_pairs());
        pairs
    }
}

} // verus!
