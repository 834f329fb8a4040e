//! Logic of a small social network: a session-token registry with sliding
//! expiry and a background sweep, password logins, an in-memory resource
//! cache, validation rules for client data, the HTTP answers the service
//! gives for its errors, and the browser client's reading of those answers.
pub mod accounts;
pub mod args;
pub mod auth;
pub mod cache;
pub mod client;
pub mod data;
pub mod errors;
pub mod laws;
pub mod loader;
pub mod queries;
pub mod session;
pub mod upload;
pub mod validation;
