//! Authentication and error-reporting core of a small HTTP API server.
pub mod error_handler;
pub mod handlers;
pub mod middleware;
pub mod models;
pub mod state;
pub mod text;
pub mod utils;
pub mod validators;
