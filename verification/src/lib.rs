//! A verified request-routing and response-normalization layer for a small
//! HTTP facade over a product-scraping collaborator: it matches paths,
//! binds path captures and query parameters, reconstructs product URLs,
//! and maps every outcome onto a uniform JSON response envelope.

pub mod bytes;
pub mod percent;
pub mod envelope;
pub mod query;
pub mod route;
pub mod product;
pub mod demo;
pub mod info;
pub mod api;
pub mod collab;

pub use envelope::ApiError;
