//! Upload records and their persistence.

pub mod image_record;
pub mod image_record_repository;
