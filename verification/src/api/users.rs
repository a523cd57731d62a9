//! The calls on users.

use vstd::prelude::*;
use vstd::string::*;
use super::{build_item_path, item_path, with_query};
use crate::client::{ManagementClient, ManagementClientView};
use crate::endpoint::{planned, Endpoint, Method};
use crate::error::{yields_view, Auth0Error};
use crate::encoding::pairs_text;
use crate::types::users::{GetUserLogsParams, ListUsersParams};

verus! {

/// Plans the calls on users.
pub struct UsersApi<'a> {
    client: &'a ManagementClient,
}

impl<'a> View for UsersApi<'a> {
    type V = ManagementClientView;

    /// The client that the calls are planned for.
    closed spec fn view(&self) -> ManagementClientView {
        self.client@
    }
}

impl<'a> UsersApi<'a> {
    /// The user calls of `client`.
    pub fn new(client: &'a ManagementClient) -> (api: Self)
        ensures
            api@ == client@,
    {
        UsersApi { client }
    }

    /// Lists or searches users: `GET api/v2/users`, with the query that `params` makes.
    pub fn list(&self, params: Option<ListUsersParams>) -> (r: Result<Endpoint, Auth0Error>)
        ensures
            yields_view(
                r,
                planned(
                    self@.base_url,
                    Method::Get,
                    with_query(
                        "api/v2/users"@,
                        match params {
                            Some(p) => Some(p.query_pairs()),
                            None => None,
                        },
                    ),
                ),
            ),
    {
        let pairs = match params {
            Some(p) => Some(p.to_pairs()),
            None => None,
        };
        self.client.request(Method::Get, String::from_str("api/v2/users"), pairs)
    }

    /// Reads one user: `GET api/v2/users/{id}`.
    pub fn get(&self, id: &str) -> (r: Result<Endpoint, Auth0Error>)
        ensures
            yields_view(
                r,
                planned(
                    self@.base_url,
                    Method::Get,
                    item_path("api/v2/users/"@, id@, ""@),
                ),
            ),
    {
        let path = build_item_path("api/v2/users/", id, "");
        self.client.request(Method::Get, path, None)
    }

    /// Creates a user: `POST api/v2/users`. The body is the new user.
    pub fn create(&self) -> (r: Result<Endpoint, Auth0Error>)
        ensures
            yields_view(r, planned(self@.base_url, Method::Post, "api/v2/users"@)),
    {
        self.client.request(Method::Post, String::from_str("api/v2/users"), None)
    }

    /// Changes one user: `PATCH api/v2/users/{id}`. The body holds the changes.
    pub fn update(&self, id: &str) -> (r: Result<Endpoint, Auth0Error>)
        ensures
            yields_view(
                r,
                planned(
                    self@.base_url,
                    Method::Patch,
                    item_path("api/v2/users/"@, id@, ""@),
                ),
            ),
    {
        let path = build_item_path("api/v2/users/", id, "");
        self.client.request(Method::Patch, path, None)
    }

    /// Deletes one user: `DELETE api/v2/users/{id}`.
    pub fn delete(&self, id: &str) -> (r: Result<Endpoint, Auth0Error>)
        ensures
            yields_view(
                r,
                planned(
                    self@.base_url,
                    Method::Delete,
                    item_path("api/v2/users/"@, id@, ""@),
                ),
            ),
    {
        let path = build_item_path("api/v2/users/", id, "");
        self.client.request(Method::Delete, path, None)
    }

    /// Finds the users with one e-mail address: `GET api/v2/users-by-email`,
    /// with the address as the query's `email`.
    pub fn get_by_email(&self, email: &str) -> (r: Result<Endpoint, Auth0Error>)
        ensures
            yields_view(
                r,
                planned(
                    self@.base_url,
                    Method::Get,
                    with_query("api/v2/users-by-email"@, Some(seq![("email"@, email@)])),
                ),
            ),
    {
        let mut pairs: Vec<(String, String)> = Vec::new();
        pairs.push((String::from_str("email"), String::from_str(email)));
        assert(pairs_text(pairs@) =~= seq![("email"@, email@)]);
        self.client.request(Method::Get, String::from_str("api/v2/users-by-email"), Some(pairs))
    }

    /// Lists the log events of one user: `GET api/v2/users/{id}/logs`, with
    /// the query that `params` makes.
    pub fn get_logs(&self, id: &str, params: Option<GetUserLogsParams>) -> (r: Result<
        Endpoint,
        Auth0Error,
    >)
        ensures
            yields_view(
                r,
                planned(
                    self@.base_url,
                    Method::Get,
                    with_query(
                        item_path("api/v2/users/"@, id@, "/logs"@),
                        match params {
                            Some(p) => Some(p.query_pairs()),
                            None => None,
                        },
                    ),
                ),
            ),
    {
        let path = build_item_path("api/v2/users/", id, "/logs");
        let pairs = match params {
            Some(p) => Some(p.to_pairs()),
            None => None,
        };
        self.client.request(Method::Get, path, pairs)
    }
}

} // verus!
