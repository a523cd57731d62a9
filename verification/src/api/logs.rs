//! The calls on log events.

use vstd::prelude::*;
use vstd::string::*;
use super::{build_item_path, item_path, with_query};
use crate::client::{ManagementClient, ManagementClientView};
use crate::endpoint::{planned, Endpoint, Method};
use crate::error::{yields_view, Auth0Error};
use crate::types::logs::ListLogsParams;

verus! {

/// Plans the calls on log events.
pub struct LogsApi<'a> {
    client: &'a ManagementClient,
}

impl<'a> View for LogsApi<'a> {
    type V = ManagementClientView;

    /// The client that the calls are planned for.
    closed spec fn view(&self) -> ManagementClientView {
        self.client@
    }
}

impl<'a> LogsApi<'a> {
    /// The log calls of `client`.
    pub fn new(client: &'a ManagementClient) -> (api: Self)
        ensures
            api@ == client@,
    {
        LogsApi { client }
    }

    /// Lists log events: `GET api/v2/logs`, with the query that `params` makes.
    pub fn list(&self, params: Option<ListLogsParams>) -> (r: Result<Endpoint, Auth0Error>)
        ensures
            yields_view(
                r,
                planned(
                    self@.base_url,
                    Method::Get,
                    with_query(
                        "api/v2/logs"@,
                        match params {
                            Some(p) => Some(p.query_pairs()),
                            None => None,
                        },
                    ),
                ),
            ),
    {
        let pairs = match params {
            Some(p) => Some(p.to_pairs()),
            None => None,
        };
        self.client.request(Method::Get, String::from_str("api/v2/logs"), pairs)
    }

    /// Reads one log event: `GET api/v2/logs/{id}`.
    pub fn get(&self, id: &str) -> (r: Result<Endpoint, Auth0Error>)
        ensures
            yields_view(
                r,
                planned(
                    self@.base_url,
                    Method::Get,
                    item_path("api/v2/logs/"@, id@, ""@),
                ),
            ),
    {
        let path = build_item_path("api/v2/logs/", id, "");
        self.client.request(Method::Get, path, None)
    }
}

} // verus!
