use vstd::prelude::*;
use crate::detection::{
    decode_detection, detection_outcome, embedding_from_outputs, embedding_outcome, BoundingBox,
    Embedding, OutputTensor,
};
use crate::error::FaceError;
use crate::layout::{planar_of, to_planar, PlanarImage};
use crate::raster::{decode_rgb, resize_triangle, rgb_decoding, triangle_resized};
use crate::registry::Registry;

verus! {

/// Width of the detector's input.
pub const DETECTOR_WIDTH: u32 = 320;
/// Height of the detector's input.
pub const DETECTOR_HEIGHT: u32 = 240;
/// Width and height of the embedder's input.
pub const EMBEDDER_SIZE: u32 = 140;

/// How a graph's backend turns the 8-bit samples of its input into floats.
#[derive(Debug, Clone, Copy, PartialEq, Eq, Structural)]
pub enum Normalization {
    /// `(sample / 255 - mean[c]) / std[c]` with the ImageNet per-channel mean
    /// `[0.485, 0.456, 0.406]` and deviation `[0.229, 0.224, 0.225]`.
    ImageNet,
    /// `sample / 255`.
    UnitScale,
}

/// What a graph is fed: the resampled image, and how its samples become floats.
pub struct GraphInput {
    pub image: PlanarImage,
    pub normalization: Normalization,
}

/// A runnable inference graph. `run` feeds it one NCHW tensor of shape
/// `(1, 3, input.image.height, input.image.width)` made from `input.image` as
/// `input.normalization` says, and returns its output tensors, or `None` where
/// execution failed.
pub trait FaceGraph {
    fn run(&self, input: &GraphInput) -> Option<Vec<OutputTensor>>;
}

/// The planar samples of a `w` by `h` image with interleaved samples `pixels`,
/// resampled with the triangle filter to `width` by `height`; nothing where the
/// image has no pixel.
pub open spec fn resampled_samples(w: u32, h: u32, pixels: Seq<u8>, width: u32, height: u32) -> Option<Seq<u8>> {
    if w >= 1 && h >= 1 {
        Some(planar_of(triangle_resized(w, h, pixels, width, height), width as int * height as int))
    } else {
        None
    }
}

/// The planar samples of the image in `bytes`, resampled with the triangle
/// filter to `width` by `height`; nothing where the bytes do not encode an
/// image with at least one pixel.
pub open spec fn prepared_samples(bytes: Seq<u8>, width: u32, height: u32) -> Option<Seq<u8>> {
    match rgb_decoding(bytes) {
        Some(d) => resampled_samples(d.0, d.1, d.2, width, height),
        None => None,
    }
}

/// Resamples a decoded `w` by `h` RGB image to `width` by `height` with the
/// triangle filter and lays it out plane by plane. An image without pixels
/// cannot be resampled and counts as undecodable.
pub fn input_from_decoded(w: u32, h: u32, pixels: Vec<u8>, width: u32, height: u32) -> (r: Result<PlanarImage, FaceError>)
    requires
        pixels@.len() == 3 * (w as int) * (h as int),
        3 * (width as int) * (height as int) <= usize::MAX,
    ensures
        resampled_samples(w, h, pixels@, width, height) is None ==> r is Err && r->Err_0 == FaceError::ImageDecode,
        resampled_samples(w, h, pixels@, width, height) is Some ==> {
            &&& r is Ok
            &&& r->Ok_0.width == width
            &&& r->Ok_0.height == height
            &&& r->Ok_0.wf()
            &&& Some(r->Ok_0.samples@) == resampled_samples(w, h, pixels@, width, height)
        },
{
    if w == 0 || h == 0 {
        return Err(FaceError::ImageDecode);
    }
    let resized = match resize_triangle(w, h, pixels, width, height) {
        Some(v) => v,
        None => {
            return Err(FaceError::ImageDecode);
        },
    };
    Ok(to_planar(width, height, &resized))
}

/// Decodes `bytes`, resamples the image to `width` by `height` with the
/// triangle filter and lays it out plane by plane. Decoding can fail for want
/// of resources as well; every failure is `ImageDecode`.
pub fn prepare_input(bytes: &Vec<u8>, width: u32, height: u32) -> (r: Result<PlanarImage, FaceError>)
    requires
        3 * (width as int) * (height as int) <= usize::MAX,
    ensures
        prepared_samples(bytes@, width, height) is None ==> r is Err,
        r is Err ==> r->Err_0 == FaceError::ImageDecode,
        r is Ok ==> {
            &&& r->Ok_0.width == width
            &&& r->Ok_0.height == height
            &&& r->Ok_0.wf()
            &&& Some(r->Ok_0.samples@) == prepared_samples(bytes@, width, height)
        },
{
    match decode_rgb(bytes) {
        Ok(d) => {
            let (w, h, pixels) = d;
            input_from_decoded(w, h, pixels, width, height)
        },
        Err(_) => Err(FaceError::ImageDecode),
    }
}

/// The detector's input: the image resampled to 320 by 240, normalized with
/// the ImageNet mean and deviation.
pub fn detector_input(bytes: &Vec<u8>) -> (r: Result<GraphInput, FaceError>)
    ensures
        prepared_samples(bytes@, 320, 240) is None ==> r is Err,
        r is Err ==> r->Err_0 == FaceError::ImageDecode,
        r is Ok ==> {
            &&& r->Ok_0.image.width == 320
            &&& r->Ok_0.image.height == 240
            &&& r->Ok_0.image.samples@.len() == 3 * 240 * 320
            &&& Some(r->Ok_0.image.samples@) == prepared_samples(bytes@, 320, 240)
            &&& r->Ok_0.normalization == Normalization::ImageNet
        },
{
    match prepare_input(bytes, DETECTOR_WIDTH, DETECTOR_HEIGHT) {
        Ok(image) => Ok(GraphInput { image, normalization: Normalization::ImageNet }),
        Err(e) => Err(e),
    }
}

/// The embedder's input: the image resampled to 140 by 140, scaled to the
/// unit range.
pub fn embedder_input(bytes: &Vec<u8>) -> (r: Result<GraphInput, FaceError>)
    ensures
        prepared_samples(bytes@, 140, 140) is None ==> r is Err,
        r is Err ==> r->Err_0 == FaceError::ImageDecode,
        r is Ok ==> {
            &&& r->Ok_0.image.width == 140
            &&& r->Ok_0.image.height == 140
            &&& r->Ok_0.image.samples@.len() == 3 * 140 * 140
            &&& Some(r->Ok_0.image.samples@) == prepared_samples(bytes@, 140, 140)
            &&& r->Ok_0.normalization == Normalization::UnitScale
        },
{
    match prepare_input(bytes, EMBEDDER_SIZE, EMBEDDER_SIZE) {
        Ok(image) => Ok(GraphInput { image, normalization: Normalization::UnitScale }),
        Err(e) => Err(e),
    }
}

/// Finds the most confident face box in the image in `image`.
///
/// Fails with `NotInitialized` where the registry holds no detector, with
/// `ImageDecode` where the bytes are not an image (or the decoder lacks the
/// resources to decode it), with `Inference` where the graph fails or its
/// outputs cannot be read, and with `NoFaceDetected` where
/// it gives no candidate. The box is in the network's relative coordinates.
pub fn detect<G: FaceGraph>(registry: &Registry<G>, image: &Vec<u8>) -> (r: Result<(BoundingBox, u32), FaceError>)
    ensures
        registry.graphs().0 is None ==> r == Err::<(BoundingBox, u32), FaceError>(FaceError::NotInitialized),
        registry.graphs().0 is Some && prepared_samples(image@, 320, 240) is None
            ==> r == Err::<(BoundingBox, u32), FaceError>(FaceError::ImageDecode),
        registry.graphs().0 is Some && prepared_samples(image@, 320, 240) is Some ==> {
            ||| r == Err::<(BoundingBox, u32), FaceError>(FaceError::ImageDecode)
            ||| r == Err::<(BoundingBox, u32), FaceError>(FaceError::Inference)
            ||| exists|outputs: Seq<OutputTensor>| detection_outcome(outputs, r)
        },
{
    let graph = match registry.detector() {
        Ok(g) => g,
        Err(e) => {
            return Err(e);
        },
    };
    let input = match detector_input(image) {
        Ok(p) => p,
        Err(e) => {
            return Err(e);
        },
    };
    match graph.run(&input) {
        Some(outputs) => {
            let r = decode_detection(&outputs);
            assert(detection_outcome(outputs@, r));
            r
        },
        None => Err(FaceError::Inference),
    }
}

/// Computes the embedding of the face image in `image`.
///
/// Fails with `NotInitialized` where the registry holds no embedder, with
/// `ImageDecode` where the bytes are not an image (or the decoder lacks the
/// resources to decode it), and with `Inference` where the graph fails or
/// gives no output. No check is made that the image shows
/// a face.
pub fn embedding<G: FaceGraph>(registry: &Registry<G>, image: &Vec<u8>) -> (r: Result<Embedding, FaceError>)
    ensures
        registry.graphs().1 is None ==> r is Err && r->Err_0 == FaceError::NotInitialized,
        registry.graphs().1 is Some && prepared_samples(image@, 140, 140) is None
            ==> r is Err && r->Err_0 == FaceError::ImageDecode,
        registry.graphs().1 is Some && prepared_samples(image@, 140, 140) is Some
            ==> {
            ||| r is Err && r->Err_0 == FaceError::ImageDecode
            ||| r is Err && r->Err_0 == FaceError::Inference
            ||| exists|outputs: Seq<OutputTensor>| embedding_outcome(outputs, r)
        },
{
    let graph = match registry.embedder() {
        Ok(g) => g,
        Err(e) => {
            return Err(e);
        },
    };
    let input = match embedder_input(image) {
        Ok(p) => p,
        Err(e) => {
            return Err(e);
        },
    };
    match graph.run(&input) {
        Some(outputs) => {
            let r = embedding_from_outputs(&outputs);
            assert(embedding_outcome(outputs@, r));
            r
        },
        None => Err(FaceError::Inference),
    }
}

/// Equal image bytes give equal graph inputs, for the detector and for the
/// embedder: the preparation uses no randomness and no state.
pub proof fn lemma_prepared_input_deterministic(a: Seq<u8>, b: Seq<u8>)
    requires
        a == b,
    ensures
        prepared_samples(a, 320, 240) == prepared_samples(b, 320, 240),
        prepared_samples(a, 140, 140) == prepared_samples(b, 140, 140),
{
}

} // verus!
