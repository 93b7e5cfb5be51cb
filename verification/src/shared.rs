//! Building blocks shared by every feature.

pub mod cdn;
pub mod identifier;
pub mod image;
pub mod record;
pub mod text;
pub mod time;
