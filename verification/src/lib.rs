//! Core logic of the newsletter subscription service: database settings,
//! the rules of the subscription store, domain errors and how requests are
//! answered, each with its contract.

pub mod adapter;
pub mod domain;
pub mod ids;
pub mod json;
pub mod port;
pub mod routes;
pub mod text;
