//! Request and response models of the service's HTTP interface.

pub mod models;
