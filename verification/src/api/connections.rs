//! The calls on connections.

use vstd::prelude::*;
use vstd::string::*;
use super::{build_item_path, item_path, with_query};
use crate::client::{ManagementClient, ManagementClientView};
use crate::endpoint::{planned, Endpoint, Method};
use crate::error::{yields_view, Auth0Error};
use crate::types::connections::ListConnectionsParams;

verus! {

/// Plans the calls on connections.
pub struct ConnectionsApi<'a> {
    client: &'a ManagementClient,
}

impl<'a> View for ConnectionsApi<'a> {
    type V = ManagementClientView;

    /// The client that the calls are planned for.
    closed spec fn view(&self) -> ManagementClientView {
        self.client@
    }
}

impl<'a> ConnectionsApi<'a> {
    /// The connection calls of `client`.
    pub fn new(client: &'a ManagementClient) -> (api: Self)
        ensures
            api@ == client@,
    {
        ConnectionsApi { client }
    }

    /// Lists connections: `GET api/v2/connections`, with the query that `params` makes.
    pub fn list(&self, params: Option<ListConnectionsParams>) -> (r: Result<Endpoint, Auth0Error>)
        ensures
            yields_view(
                r,
                planned(
                    self@.base_url,
                    Method::Get,
                    with_query(
                        "api/v2/connections"@,
                        match params {
                            Some(p) => Some(p.query_pairs()),
                            None => None,
                        },
                    ),
                ),
            ),
    {
        let pairs = match params {
            Some(p) => Some(p.to_pairs()),
            None => None,
        };
        self.client.request(Method::Get, String::from_str("api/v2/connections"), pairs)
    }

    /// Reads one connection: `GET api/v2/connections/{id}`.
    pub fn get(&self, id: &str) -> (r: Result<Endpoint, Auth0Error>)
        ensures
            yields_view(
                r,
                planned(
                    self@.base_url,
                    Method::Get,
                    item_path("api/v2/connections/"@, id@, ""@),
                ),
            ),
    {
        let path = build_item_path("api/v2/connections/", id, "");
        self.client.request(Method::Get, path, None)
    }

    /// Creates a connection: `POST api/v2/connections`. The body is the new connection.
    pub fn create(&self) -> (r: Result<Endpoint, Auth0Error>)
        ensures
            yields_view(r, planned(self@.base_url, Method::Post, "api/v2/connections"@)),
    {
        self.client.request(Method::Post, String::from_str("api/v2/connections"), None)
    }

    /// Changes one connection: `PATCH api/v2/connections/{id}`. The body holds the changes.
    pub fn update(&self, id: &str) -> (r: Result<Endpoint, Auth0Error>)
        ensures
            yields_view(
                r,
                planned(
                    self@.base_url,
                    Method::Patch,
                    item_path("api/v2/connections/"@, id@, ""@),
                ),
            ),
    {
        let path = build_item_path("api/v2/connections/", id, "");
        self.client.request(Method::Patch, path, None)
    }

    /// Deletes one connection: `DELETE api/v2/connections/{id}`.
    pub fn delete(&self, id: &str) -> (r: Result<Endpoint, Auth0Error>)
        ensures
            yields_view(
                r,
                planned(
                    self@.base_url,
                    Method::Delete,
                    item_path("api/v2/connections/"@, id@, ""@),
                ),
            ),
    {
        let path = build_item_path("api/v2/connections/", id, "");
        self.client.request(Method::Delete, path, None)
    }
}

} // verus!
