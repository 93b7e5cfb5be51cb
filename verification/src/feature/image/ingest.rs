//! Ingestion: issuing a presigned upload URL and recording the intended upload.

pub mod command;
pub mod error;
pub mod model;
pub mod storage;
