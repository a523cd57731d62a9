//! The data that requests carry and responses bring.

pub mod clients;
pub mod common;
pub mod connections;
pub mod enums;
pub mod ids;
pub mod logs;
pub mod query;
pub mod users;

pub use common::{PaginatedResponse, PaginationParams};
pub use enums::{
    AppType, ConnectionStrategy, GrantType, OrganizationRequireBehavior, OrganizationUsage,
    TokenAuthMethod,
};
pub use ids::{ClientId, ConnectionId, UserId};
pub use query::{Page, PerPage, SearchEngine, SortDirection, SortSpec};
