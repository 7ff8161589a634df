//! Client library for a paginated, hypermedia-linked REST API of genome-wide
//! association data: query filters, request addresses, response checks,
//! envelope decoding, endpoint routing and batch download bookkeeping.
pub mod batch;
pub mod decode;
pub mod envelope;
pub mod error;
pub mod files;
pub mod filter;
pub mod json;
pub mod model;
pub mod request;
pub mod response;
pub mod routes;
pub mod text;
