//! Client for the Strava v3 REST API: request URLs, the typed GET pipeline
//! and the resource types that the API returns.
pub mod api;
pub mod error;
pub mod http;
pub mod resources;
