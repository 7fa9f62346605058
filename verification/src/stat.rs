//! Metadata records and their JSON form.

pub mod error;
pub mod json;
pub mod laws;
pub mod least;
pub mod probe;
pub mod rfc3339;
