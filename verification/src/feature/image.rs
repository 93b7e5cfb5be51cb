//! Features on images.

pub mod ingest;
