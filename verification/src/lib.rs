//! The request logic of a JWT-authenticated user API: registration, login,
//! password reset, magic links and user administration, each handler a
//! verified step function that the HTTP layer drives.

pub mod text;
pub mod decimal;
pub mod claims;
pub mod auth;
pub mod models;
pub mod response;
pub mod validation;
pub mod requests;
pub mod controllers;
pub mod services;
pub mod policies;
pub mod config;
pub mod laws;
pub mod routes;
