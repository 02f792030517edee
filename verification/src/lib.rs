//! Verified core of a Bitwarden-compatible vault server: request validation,
//! access-control decisions, token handling, TOTP, sends, organizations and
//! the SignalR framing used for push notifications.

pub mod error;
pub mod text;
pub mod digits;
pub mod cli;
pub mod config;
pub mod crypto;
pub mod util;
pub mod db;
pub mod auth;
pub mod api;
pub mod jobs;
pub mod middleware;
pub mod models;
pub mod notifications;
