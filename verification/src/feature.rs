//! What the service does, one directory per feature.

pub mod image;
