//! Authorize-then-act request dispatch for typed, store-backed entities.
//!
//! Every operation on an entity (read, write, create, delete) is preceded by
//! an authorization guard. The guard's verdict, the store's answer and the
//! renderer's output are combined by verified functions whose contracts say
//! exactly which outcome a caller sees.

pub mod auth;
pub mod codegen;
pub mod components;
pub mod controllers;
pub mod errors;
pub mod hot_reload;
pub mod models;
pub mod utils;
