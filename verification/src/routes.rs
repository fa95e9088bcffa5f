//! What each route of the service answers.

pub mod app;
pub mod echo;
pub mod health_check;
pub mod subscriptions;
