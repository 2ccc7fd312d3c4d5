pub mod contact_store;
pub mod error;
pub mod keys;
pub mod models;
pub mod server;
pub mod text;
