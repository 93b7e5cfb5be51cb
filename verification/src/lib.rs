//! Issuance of short-lived upload credentials for images, together with the
//! record of each intended upload and the collaborators the issuance depends on.

pub mod api;
pub mod common;
pub mod config;
pub mod feature;
pub mod shared;
