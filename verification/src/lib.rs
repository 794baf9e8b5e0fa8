//! Credential and request-authorization core for a multi-tenant REST backend:
//! password hashing, token issuance and validation, a bounded
//! duplicate-registration cache, the per-request auth gate, and the
//! filtered query builder used to list a user's activity records.

pub mod activity;
pub mod auth;
pub mod cache;
pub mod errors;
pub mod gate;
pub mod hashing;
pub mod numfmt;
pub mod profile;
pub mod query;
pub mod token;
pub mod upload;
pub mod url;
pub mod validation;

pub use activity::{ActivityRequest, GetUserId, calculate_calories_burned};
pub use auth::{AuthRequest, AuthResponse, GetUserPassword};
pub use cache::ExistenceCache;
pub use errors::AppError;
pub use gate::{AuthContext, AuthDecision, authorize};
pub use query::GetActivitiesQuery;
pub use token::{Claims, generate_token, validate_token};
pub use url::validate_url;
pub use validation::{
    validate_height_unit, validate_payload, validate_preference, validate_weight_unit,
};
