//! Client-side credential resolution and authenticated-request pipeline
//! for a remote HTTP platform API.
//!
//! The library discovers credentials from several competing sources
//! (environment variables, a per-user profile file, a mounted rotating
//! secret), decides when they must be refreshed, builds authenticated
//! request descriptors, classifies HTTP outcomes, and assembles
//! multi-page results.

pub mod client;
pub mod clock;
pub mod config;
pub mod error;
pub mod pagination;
pub mod request;
pub mod status;
pub mod urls;

pub use client::PlatzClient;
pub use config::PlatzClientConfig;
pub use error::PlatzClientError;
pub use pagination::Paginated;
pub use request::PlatzRequest;
