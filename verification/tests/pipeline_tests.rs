use edgemap::buffer::GradientBuffer;
use edgemap::buffer::GrayBuffer;
use edgemap::buffer::NormalizedImage;
use edgemap::normalize::normalize_u16_to_u8;
use edgemap::pipeline::gradient_magnitude_pipeline;
use edgemap::pipeline::run_pipeline;
use edgemap::pipeline::thresholded_mask_pipeline;
use edgemap::pipeline::EdgeMethod;

/// A 16x16 grayscale test image with a sharp vertical edge down the middle.
fn edge_image_samples() -> Vec<u8> {
    let mut samples: Vec<u8> = Vec::new();
    let mut y: u32 = 0;
    while y < 16 {
        let mut x: u32 = 0;
        while x < 16 {
            samples.push(if x < 8 { 0 } else { 255 });
            x += 1;
        }
        y += 1;
    }
    samples
}

#[test]
fn gradient_pipeline_matches_direct_operator() {
    let samples = edge_image_samples();
    let gray = GrayBuffer::new(16, 16, samples.clone()).expect("valid buffer");
    let (out, degenerate) = gradient_magnitude_pipeline(&gray);

    // The same operator invoked directly on the same image, normalized
    // by the library, must give the identical result.
    let img = image::GrayImage::from_raw(16, 16, samples).expect("valid image");
    let direct = imageproc::gradients::sobel_gradients(&img);
    let grad = GradientBuffer::new(direct.width(), direct.height(), direct.into_raw())
        .expect("valid buffer");
    let (expected, expected_degenerate) = normalize_u16_to_u8(&grad);

    assert_eq!(out.samples, expected.samples);
    assert_eq!(degenerate, expected_degenerate);
    assert!(!degenerate);
    assert_eq!(out.width, 16);
    assert_eq!(out.height, 16);
}

#[test]
fn gradient_pipeline_flat_image_is_degenerate() {
    let gray = GrayBuffer::new(4, 4, vec![9; 16]).expect("valid buffer");
    let (out, degenerate) = gradient_magnitude_pipeline(&gray);
    assert!(degenerate);
    assert_eq!(out.samples, vec![0; 16]);
    assert_eq!(out.width, 4);
    assert_eq!(out.height, 4);
}

#[test]
fn mask_branch_returns_detector_output_unchanged() {
    let samples = edge_image_samples();
    let img = image::GrayImage::from_raw(16, 16, samples.clone()).expect("valid image");
    let detected = imageproc::edges::canny(&img, 50.0, 100.0);
    let raw: Vec<u8> = detected.into_raw();
    // the detector's output is binary
    assert!(raw.iter().all(|v| *v == 0 || *v == 255));

    let mask = NormalizedImage::new(16, 16, raw.clone()).expect("valid image");
    let out = thresholded_mask_pipeline(mask);
    assert_eq!(out.samples, raw);
    assert_eq!(out.width, 16);
    assert_eq!(out.height, 16);
}

#[test]
fn run_pipeline_dispatches_gradient_branch() {
    let samples = edge_image_samples();
    let gray = GrayBuffer::new(16, 16, samples).expect("valid buffer");
    let direct = gradient_magnitude_pipeline(&gray);
    let routed = run_pipeline(&gray, EdgeMethod::GradientMagnitude, None).expect("owed output");
    assert_eq!(routed.0.samples, direct.0.samples);
    assert_eq!(routed.1, direct.1);
}

#[test]
fn run_pipeline_dispatches_mask_branch() {
    let gray = GrayBuffer::new(2, 2, vec![0, 0, 255, 255]).expect("valid buffer");
    let mask = NormalizedImage::new(2, 2, vec![0, 255, 255, 0]).expect("valid image");
    let routed = run_pipeline(&gray, EdgeMethod::ThresholdedMask, Some(mask)).expect("owed output");
    assert_eq!(routed.0.samples, vec![0, 255, 255, 0]);
    assert!(!routed.1);
}

#[test]
fn run_pipeline_mask_branch_needs_a_mask() {
    let gray = GrayBuffer::new(2, 2, vec![0, 0, 255, 255]).expect("valid buffer");
    assert!(run_pipeline(&gray, EdgeMethod::ThresholdedMask, None).is_none());
}
