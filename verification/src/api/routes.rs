//! The routes.

pub mod image;
