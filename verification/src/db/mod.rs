//! Rows of the D1 database as the library sees them.

pub mod models;
