//! A small course-marketplace backend: administrators sign up, authenticate
//! and manage courses; users sign up, authenticate, browse courses and
//! purchase them.
//!
//! The library holds the whole request-handling logic — account signup and
//! signin, bearer-token authorization, course creation, ownership-gated
//! update, listing, and duplicate-free purchasing — over an in-memory
//! relational store, all of it verified. Password hashing and token
//! signing/verification are external primitives reached through a few
//! trusted wrappers; the HTTP transport is not part of the library.

pub mod db;
pub mod errors;
pub mod handlers;
pub mod ids;
pub mod laws;
pub mod middlewares;
pub mod models;
pub mod schema;
pub mod token;
pub mod utils;
