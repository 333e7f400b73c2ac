//! The request-handling rules of the sumire notes service: input validation,
//! the decisions each endpoint takes between its database round trips, and the
//! few values the service computes for itself (identifiers, tokens, password
//! hashes, message bodies).

pub mod api;
pub mod grammar;
pub mod outside;
pub mod smtp;
pub mod status;
pub mod text;
pub mod wah;
