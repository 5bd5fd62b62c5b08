//! Request-scoped authorization, one gate per principal kind.

pub mod admin;
pub mod user;
