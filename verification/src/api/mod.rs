//! The decisions behind each API endpoint: what a request may do, what it
//! changes, and what it answers. Reading requests, the database and the
//! network happens around these functions.

pub mod accounts;
pub mod ciphers;
pub mod events;
pub mod folders;
pub mod organizations;
pub mod icons;
pub mod identity;
pub mod sends;
pub mod sync;
pub mod two_factor;
pub mod web;
