//! API request and response shapes. JSON values that the server passes
//! through untouched are held as their JSON text.

pub mod cipher;
pub mod config;
pub mod folder;
pub mod organization;
pub mod send;
pub mod sync;
pub mod user;
