//! Typed requests for the pull requests of one repository on a source-control
//! hosting service: resource paths, list filters, JSON payloads, and decoding
//! of the service's answers.

pub mod filters;
pub mod json;
pub mod pullrequests;
pub mod rep;
pub mod text;
