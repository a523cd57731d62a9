//! Users.

use vstd::prelude::*;
use crate::encoding::{
    flag_pair, number_pair, pairs_text, push_flag_pair, push_number_pair, push_text_pair, text_pair,
};

verus! {

/// One login of a user with one provider.
#[derive(Debug, Clone)]
pub struct Identity {
    pub connection: String,
    pub user_id: String,
    pub provider: String,
    pub is_social: bool,
}

/// What a list of users is narrowed by.
#[derive(Debug, Clone, Default)]
pub struct ListUsersParams {
    pub page: Option<u32>,
    pub per_page: Option<u32>,
    pub sort: Option<String>,
    pub connection: Option<String>,
    pub fields: Option<String>,
    pub include_fields: Option<bool>,
    pub q: Option<String>,
    pub search_engine: Option<String>,
}

impl ListUsersParams {
    /// The names and values of the query, in the order in which they are
    /// written: one pair for each field that is set.
    pub open spec fn query_pairs(self) -> Seq<(Seq<char>, Seq<char>)> {
        number_pair("page"@, self.page)
            + number_pair("per_page"@, self.per_page)
            + text_pair("sort"@, self.sort)
            + text_pair("connection"@, self.connection)
            + text_pair("fields"@, self.fields)
            + flag_pair("include_fields"@, self.include_fields)
            + text_pair("q"@, self.q)
            + text_pair("search_engine"@, self.search_engine)
    }

    /// Lists the names and values of the query.
    pub fn to_pairs(&self) -> (pairs: Vec<(String, String)>)
        ensures
            pairs_text(pairs@) == self.query_pairs(),
    {
        let mut pairs: Vec<(String, String)> = Vec::new();
        assert(pairs_text(pairs@) =~= Seq::empty());
        push_number_pair(&mut pairs, "page", &self.page);
        push_number_pair(&mut pairs, "per_page", &self.per_page);
        push_text_pair(&mut pairs, "sort", &self.sort);
        push_text_pair(&mut pairs, "connection", &self.connection);
        push_text_pair(&mut pairs, "fields", &self.fields);
        push_flag_pair(&mut pairs, "include_fields", &self.include_fields);
        push_text_pair(&mut pairs, "q", &self.q);
        push_text_pair(&mut pairs, "search_engine", &self.search_engine);
        assert(pairs_text(pairs@) =~= self.query_pairs());
        pairs
    }
}

/// The paging and order of the log events of one user.
#[derive(Debug, Clone, Default)]
pub struct GetUserLogsParams {
    pub page: Option<u32>,
    pub per_page: Option<u32>,
    pub sort: Option<String>,
}

impl GetUserLogsParams {
    /// The names and values of the query, in the order in which they are
    /// written: one pair for each field that is set.
    pub open spec fn query_pairs(self) -> Seq<(Seq<char>, Seq<char>)> {
        number_pair("page"@, self.page)
            + number_pair("per_page"@, self.per_page)
            + text_pair("sort"@, self.sort)
    }

    /// Lists the names and values of the query.
    pub fn to_pairs(&self) -> (pairs: Vec<(String, String)>)
        ensures
            pairs_text(pairs@) == self.query_pairs(),
    {
        let mut pairs: Vec<(String, String)> = Vec::new();
        assert(pairs_text(pairs@) =~= Seq::empty());
        push_number_pair(&mut pairs, "page", &self.page);
        push_number_pair(&mut pairs, "per_page", &self.per_page);
        push_text_pair(&mut pairs, "sort", &self.sort);
        assert(pairs_text(pairs@) =~= self.query_pairs());
        pairs
    }
}

} // verus!
