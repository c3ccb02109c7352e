//! The request handlers, each a function from the request and the latest
//! outcome to the next step.

pub mod auth_controller;
pub mod user_controller;
