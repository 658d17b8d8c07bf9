pub mod api;
pub mod client;
pub mod decimal;
pub mod error;
pub mod types;
