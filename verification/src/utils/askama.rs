//! Helpers for templates.

pub mod filters;
