//! Wire types of the webhook API, its errors, and JSON handling.

pub mod error;
pub mod json;
pub mod models;

pub use error::ApiError;
pub mod routes;
