//! Typed client core for the Auth0 Management API: token caching, bounded
//! retry of the token exchange, request planning and response classification.
//!
//! Nothing here touches the network or the clock. A caller sends what
//! [`endpoint::authorize`] hands out, tells [`refresh::TokenRefresh`] what
//! each attempt of the token exchange brought, waits as long as it says, and
//! gives every response to [`ManagementClient::handle_response`]. Times are
//! milliseconds on a clock of the caller's choosing; a lock around the
//! [`token::TokenCache`] is the caller's too.
//!
//! Every function is verified against its contract. What is believed
//! without proof is the behaviour of other crates, each behind one small
//! function: `url` ([`endpoint::url_parse`], [`endpoint::url_join`]),
//! `urlencoding` and `serde_urlencoded` (stated in [`encoding`]), `secrecy`
//! ([`client::ClientSecret`]), and `String::push` and `str::starts_with` of
//! `std` (in [`text`]).

pub mod api;
pub mod client;
pub mod encoding;
pub mod endpoint;
pub mod error;
pub mod refresh;
pub mod response;
pub mod retry;
pub mod text;
pub mod token;
pub mod types;

pub use client::{ManagementClient, ManagementClientBuilder};
pub use error::Auth0Error;
pub use retry::RetryConfig;
pub use types::{
    AppType, ClientId, ConnectionId, ConnectionStrategy, GrantType, OrganizationRequireBehavior,
    OrganizationUsage, Page, PerPage, SearchEngine, SortDirection, SortSpec, TokenAuthMethod,
    UserId,
};
