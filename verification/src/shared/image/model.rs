//! The record of an upload under its short name, `Image`, and its store as
//! `ImageRepository`. The types are those of the record module; only the names
//! differ.

use vstd::prelude::*;
use crate::shared::record::image_record::ImageRecord;

pub use crate::shared::record::image_record::ImageContentType;
pub use crate::shared::record::image_record::ImageId;
pub use crate::shared::record::image_record::ImageRecordRepository as ImageRepository;
pub use crate::shared::record::image_record::ImageStatus;
pub use crate::shared::record::image_record::RepositoryError;

verus! {

/// One intended upload.
pub type Image = ImageRecord;

} // verus!
