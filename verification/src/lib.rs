//! A typed client core for a paginated, JSON:API-style REST service that is
//! authenticated with a bearer token.
//!
//! The crate performs no I/O. A request is turned into a [`request_sender::Fetch`],
//! the description of one HTTP GET; the caller performs it and hands back what
//! arrived, and the library decides what happens next: another page is fetched,
//! the collected result is delivered, or the exchange fails with a typed error.
//! Every function is verified against the contract written on it.

/// Decimal rendering of integers.
pub mod text;
/// The `links` object of a response.
pub mod links;
/// The response envelope and the resources of the service.
pub mod types;
/// The request contract and the engine that executes requests.
pub mod request_sender;
/// The course of a collection fetch over many pages, and what holds of it.
pub mod pagination;
/// Query parameters and the rules for adding them.
pub mod query_builder;
/// Instants with a zone, and their RFC 3339 text.
pub mod timestamp;
/// The requests of the endpoints of the service.
pub mod api_endpoints;
/// Running an exchange against recorded replies instead of a service.
pub mod replay;
