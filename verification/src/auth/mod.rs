//! Tokens and request authentication: JWT claims, their construction and
//! validation, and the authenticated-user guard.

pub mod claims;
pub mod guards;
pub mod jwt;
