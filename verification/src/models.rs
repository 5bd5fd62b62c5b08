//! The stored entities and the operations of their stores.

pub mod admin;
pub mod course;
pub mod purchase;
pub mod user;
