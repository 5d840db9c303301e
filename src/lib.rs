//! Handwritten digit images and labels in the IDX layout (header, then one
//! byte per pixel or label), their text renderings, and the layer shapes of
//! a dense network trained on them.

pub mod dataset;
pub mod idx;
pub mod image;
pub mod label;
pub mod neural_network;
pub mod text;
pub mod visualization;

pub use crate::image::{
    calculate_image_bounds, Image, TestImage, TrainingImage, IMAGE_HEIGHT, IMAGE_MAGIC_NUMBER,
    IMAGE_OFFSET, IMAGE_SIZE, IMAGE_WIDTH, TEST_IMAGE_COUNT, TRAINING_IMAGE_COUNT,
};
pub use crate::label::{
    DigitClass, Label, TestLabel, TrainingLabel, DIGIT_CLASS_COUNT, LABEL_MAGIC_NUMBER,
    LABEL_OFFSET,
};
use vstd::prelude::*;

verus! {

/// One half of the data set: a kind of image and the kind of label that
/// goes with it, image `i` being labelled by label `i`.
pub trait DataSet {
    type Image: Image;

    type Label: Label;
}

/// The training half of the data set.
pub struct TrainingData;

impl DataSet for TrainingData {
    type Image = TrainingImage;

    type Label = TrainingLabel;
}

/// The test half of the data set.
pub struct TestData;

impl DataSet for TestData {
    type Image = TestImage;

    type Label = TestLabel;
}

} // verus!
