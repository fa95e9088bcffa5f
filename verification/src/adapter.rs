//! The persistence side: database settings, stored rows, the repository
//! interface and its result rules, and the connection retry schedule.

pub mod configuration;
pub mod models;
pub mod repository;
pub mod retry;
