//! The calls on applications.

use vstd::prelude::*;
use vstd::string::*;
use super::{build_item_path, item_path, with_query};
use crate::client::{ManagementClient, ManagementClientView};
use crate::endpoint::{planned, Endpoint, Method};
use crate::error::{yields_view, Auth0Error};
use crate::types::clients::ListClientsParams;
use crate::types::ids::ClientId;

verus! {

/// Plans the calls on applications.
pub struct ClientsApi<'a> {
    client: &'a ManagementClient,
}

impl<'a> View for ClientsApi<'a> {
    type V = ManagementClientView;

    /// The client that the calls are planned for.
    closed spec fn view(&self) -> ManagementClientView {
        self.client@
    }
}

impl<'a> ClientsApi<'a> {
    /// The application calls of `client`.
    pub fn new(client: &'a ManagementClient) -> (api: Self)
        ensures
            api@ == client@,
    {
        ClientsApi { client }
    }

    /// Lists applications: `GET api/v2/clients`, with the query that `params` makes.
    pub fn list(&self, params: Option<ListClientsParams>) -> (r: Result<Endpoint, Auth0Error>)
        ensures
            yields_view(
                r,
                planned(
                    self@.base_url,
                    Method::Get,
                    with_query(
                        "api/v2/clients"@,
                        match params {
                            Some(p) => Some(p.query_pairs()),
                            None => None,
                        },
                    ),
                ),
            ),
    {
        let pairs = match params {
            Some(p) => Some(p.to_pairs()),
            None => None,
        };
        self.client.request(Method::Get, String::from_str("api/v2/clients"), pairs)
    }

    /// Reads one application: `GET api/v2/clients/{id}`.
    pub fn get(&self, id: ClientId) -> (r: Result<Endpoint, Auth0Error>)
        ensures
            yields_view(
                r,
                planned(
                    self@.base_url,
                    Method::Get,
                    item_path("api/v2/clients/"@, id@, ""@),
                ),
            ),
    {
        let path = build_item_path("api/v2/clients/", id.as_str(), "");
        self.client.request(Method::Get, path, None)
    }

    /// Creates an application: `POST api/v2/clients`. The body is the new application.
    pub fn create(&self) -> (r: Result<Endpoint, Auth0Error>)
        ensures
            yields_view(r, planned(self@.base_url, Method::Post, "api/v2/clients"@)),
    {
        self.client.request(Method::Post, String::from_str("api/v2/clients"), None)
    }

    /// Changes one application: `PATCH api/v2/clients/{id}`. The body holds the changes.
    pub fn update(&self, id: ClientId) -> (r: Result<Endpoint, Auth0Error>)
        ensures
            yields_view(
                r,
                planned(
                    self@.base_url,
                    Method::Patch,
                    item_path("api/v2/clients/"@, id@, ""@),
                ),
            ),
    {
        let path = build_item_path("api/v2/clients/", id.as_str(), "");
        self.client.request(Method::Patch, path, None)
    }

    /// Deletes one application: `DELETE api/v2/clients/{id}`.
    pub fn delete(&self, id: ClientId) -> (r: Result<Endpoint, Auth0Error>)
        ensures
            yields_view(
                r,
                planned(
                    self@.base_url,
                    Method::Delete,
                    item_path("api/v2/clients/"@, id@, ""@),
                ),
            ),
    {
        let path = build_item_path("api/v2/clients/", id.as_str(), "");
        self.client.request(Method::Delete, path, None)
    }

    /// Gives one application a new secret: `POST api/v2/clients/{id}/rotate-secret`.
    pub fn rotate_secret(&self, id: ClientId) -> (r: Result<Endpoint, Auth0Error>)
        ensures
            yields_view(
                r,
                planned(
                    self@.base_url,
                    Method::Post,
                    item_path("api/v2/clients/"@, id@, "/rotate-secret"@),
                ),
            ),
    {
        let path = build_item_path("api/v2/clients/", id.as_str(), "/rotate-secret");
        self.client.request(Method::Post, path, None)
    }
}

} // verus!
