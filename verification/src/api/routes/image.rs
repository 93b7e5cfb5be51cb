//! Routes on images.

pub mod ingest;
