//! A small static-file HTTP server library: path resolution, content-type
//! classification, directory listings, request-line parsing and response
//! framing, each with a proved contract.

pub mod text;
pub mod path;
pub mod mime;
pub mod listing;
pub mod request;
pub mod response;
