//! Images: the record types under their short names.

pub mod model;
