use vstd::prelude::*;
use vstd::string::*;
use crate::model::{ImageAnalysisMetrics, ServiceError};

verus! {

/// Smallest accepted image, in bytes.
pub const MIN_IMAGE_BYTES: usize = 1024;

/// Largest accepted image, in bytes (50 MiB).
pub const MAX_IMAGE_BYTES: usize = 52428800;

pub open spec fn too_small_message() -> Seq<char> {
    "Image file too small - minimum 1KB required"@
}

pub open spec fn too_large_message() -> Seq<char> {
    "Image file too large - maximum 50MB allowed"@
}

/// The metrics reported for an accepted image of `len` bytes.
pub open spec fn metrics_for(len: nat) -> ImageAnalysisMetrics {
    ImageAnalysisMetrics {
        image_size_kb: (len / 1024) as u32,
        processing_time_ms: 1250,
        model_inference_time_ms: 850,
        preprocessing_time_ms: 400,
        quality_score_percent: 87,
    }
}

/// Checks the size bounds of an image and reports its metrics.
///
/// An image under 1 KiB or over 50 MiB is refused; any other image is
/// accepted, and its size in KiB is rounded down.
pub fn validate_medical_image(image_data: &[u8]) -> (r: Result<ImageAnalysisMetrics, ServiceError>)
    ensures
        image_data@.len() < MIN_IMAGE_BYTES ==> (r matches Err(ServiceError::ValidationError(m))
            && m@ == too_small_message()),
        image_data@.len() > MAX_IMAGE_BYTES ==> (r matches Err(ServiceError::ValidationError(m))
            && m@ == too_large_message()),
        MIN_IMAGE_BYTES <= image_data@.len() <= MAX_IMAGE_BYTES ==> r == Ok::<
            ImageAnalysisMetrics,
            ServiceError,
        >(metrics_for(image_data@.len())),
{
    let len = image_data.len();
    if len < MIN_IMAGE_BYTES {
        return Err(ServiceError::ValidationError(String::from_str("Image file too small - minimum 1KB required")));
    }
    if len > MAX_IMAGE_BYTES {
        return Err(ServiceError::ValidationError(String::from_str("Image file too large - maximum 50MB allowed")));
    }
    Ok(ImageAnalysisMetrics {
        image_size_kb: (len / 1024) as u32,
        processing_time_ms: 1250,
        model_inference_time_ms: 850,
        preprocessing_time_ms: 400,
        quality_score_percent: 87,
    })
}

} // verus!
