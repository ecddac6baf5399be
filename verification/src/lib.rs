//! Edge-map post-processing: dynamic-range scanning, 8-bit normalization,
//! and dispatch between a gradient-magnitude branch and a thresholded-mask
//! branch of an edge-detection pipeline.

pub mod buffer;
pub mod normalize;
pub mod pipeline;
pub mod range;
