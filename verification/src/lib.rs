pub mod auth;
pub mod campaign;
pub mod engine;
pub mod errors;
pub mod events;
pub mod laws;
