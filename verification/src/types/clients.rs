//! Applications, which the API calls clients.

use vstd::prelude::*;
use crate::encoding::{
    flag_pair, number_pair, pairs_text, push_flag_pair, push_number_pair, push_text_pair, text_pair,
};

verus! {

/// An application registered with the tenant.
#[derive(Debug, Clone)]
pub struct Client {
    pub client_id: String,
    pub tenant: Option<String>,
    pub name: Option<String>,
    pub description: Option<String>,
    pub global: Option<bool>,
    pub client_secret: Option<String>,
    pub app_type: Option<String>,
    pub logo_uri: Option<String>,
    pub is_first_party: Option<bool>,
    pub oidc_conformant: Option<bool>,
    pub callbacks: Option<Vec<String>>,
    pub allowed_origins: Option<Vec<String>>,
    pub web_origins: Option<Vec<String>>,
    pub client_aliases: Option<Vec<String>>,
    pub allowed_clients: Option<Vec<String>>,
    pub allowed_logout_urls: Option<Vec<String>>,
    pub grant_types: Option<Vec<String>>,
    pub token_endpoint_auth_method: Option<String>,
    pub sso: Option<bool>,
    pub sso_disabled: Option<bool>,
    pub cross_origin_auth: Option<bool>,
    pub cross_origin_loc: Option<String>,
    pub custom_login_page_on: Option<bool>,
    pub custom_login_page: Option<String>,
    pub custom_login_page_preview: Option<String>,
    pub form_template: Option<String>,
    pub is_heroku_app: Option<bool>,
    pub initiate_login_uri: Option<String>,
    pub organization_usage: Option<String>,
    pub organization_require_behavior: Option<String>,
}

/// What creates an application.
#[derive(Debug, Clone, Default)]
pub struct CreateClientRequest {
    pub name: String,
    pub description: Option<String>,
    pub logo_uri: Option<String>,
    pub callbacks: Option<Vec<String>>,
    pub allowed_origins: Option<Vec<String>>,
    pub web_origins: Option<Vec<String>>,
    pub client_aliases: Option<Vec<String>>,
    pub allowed_clients: Option<Vec<String>>,
    pub allowed_logout_urls: Option<Vec<String>>,
    pub grant_types: Option<Vec<String>>,
    pub token_endpoint_auth_method: Option<String>,
    pub app_type: Option<String>,
    pub oidc_conformant: Option<bool>,
    pub sso: Option<bool>,
    pub cross_origin_auth: Option<bool>,
    pub cross_origin_loc: Option<String>,
    pub custom_login_page_on: Option<bool>,
    pub custom_login_page: Option<String>,
    pub initiate_login_uri: Option<String>,
    pub organization_usage: Option<String>,
    pub organization_require_behavior: Option<String>,
}

/// What changes an application: the fields that are set.
#[derive(Debug, Clone, Default)]
pub struct UpdateClientRequest {
    pub name: Option<String>,
    pub description: Option<String>,
    pub logo_uri: Option<String>,
    pub callbacks: Option<Vec<String>>,
    pub allowed_origins: Option<Vec<String>>,
    pub web_origins: Option<Vec<String>>,
    pub client_aliases: Option<Vec<String>>,
    pub allowed_clients: Option<Vec<String>>,
    pub allowed_logout_urls: Option<Vec<String>>,
    pub grant_types: Option<Vec<String>>,
    pub token_endpoint_auth_method: Option<String>,
    pub app_type: Option<String>,
    pub oidc_conformant: Option<bool>,
    pub sso: Option<bool>,
    pub sso_disabled: Option<bool>,
    pub cross_origin_auth: Option<bool>,
    pub cross_origin_loc: Option<String>,
    pub custom_login_page_on: Option<bool>,
    pub custom_login_page: Option<String>,
    pub initiate_login_uri: Option<String>,
}

/// What a list of applications is narrowed by.
#[derive(Debug, Clone, Default)]
pub struct ListClientsParams {
    pub page: Option<u32>,
    pub per_page: Option<u32>,
    pub include_totals: Option<bool>,
    pub fields: Option<String>,
    pub include_fields: Option<bool>,
    pub is_global: Option<bool>,
    pub is_first_party: Option<bool>,
    pub app_type: Option<String>,
}

impl ListClientsParams {
    /// The names and values of the query, in the order in which they are
    /// written: one pair for each field that is set.
    pub open spec fn query_pairs(self) -> Seq<(Seq<char>, Seq<char>)> {
        number_pair("page"@, self.page)
            + number_pair("per_page"@, self.per_page)
            + flag_pair("include_totals"@, self.include_totals)
            + text_pair("fields"@, self.fields)
            + flag_pair("include_fields"@, self.include_fields)
            + flag_pair("is_global"@, self.is_global)
            + flag_pair("is_first_party"@, self.is_first_party)
            + text_pair("app_type"@, self.app_type)
    }

    /// Lists the names and values of the query.
    pub fn to_pairs(&self) -> (pairs: Vec<(String, String)>)
        ensures
            pairs_text(pairs@) == self.query_pairs(),
    {
        let mut pairs: Vec<(String, String)> = Vec::new();
        assert(pairs_text(pairs@) =~= Seq::empty());
        push_number_pair(&mut pairs, "page", &self.page);
        push_number_pair(&mut pairs, "per_page", &self.per_page);
        push_flag_pair(&mut pairs, "include_totals", &self.include_totals);
        push_text_pair(&mut pairs, "fields", &self.fields);
        push_flag_pair(&mut pairs, "include_fields", &self.include_fields);
        push_flag_pair(&mut pairs, "is_global", &self.is_global);
        push_flag_pair(&mut pairs, "is_first_party", &self.is_first_party);
        push_text_pair(&mut pairs, "app_type", &self.app_type);
        assert(pairs_text(pairs@) =~= self.query_pairs());
        pairs
    }
}

} // verus!
