//! The service's domain errors.

pub mod errors;
