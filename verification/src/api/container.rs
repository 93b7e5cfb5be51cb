//! What the routes share.

use vstd::prelude::*;
use crate::feature::image::ingest::command::CreateImageIngestPresignedUrlCommandExecutor;
use crate::feature::image::ingest::model::ImageStorage;
use crate::shared::record::image_record::ImageRecordRepository;

verus! {

/// The state behind the routes: one executor per command.
pub struct AppState<R: ImageRecordRepository, S: ImageStorage> {
    pub create_image_ingest_presigned_url: CreateImageIngestPresignedUrlCommandExecutor<R, S>,
}

} // verus!
