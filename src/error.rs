use vstd::prelude::*;

verus! {

/// The ways a registry operation or a pipeline call can fail.
#[derive(Debug, Clone, Copy, PartialEq, Eq, Structural)]
pub enum FaceError {
    /// A model definition is malformed or uses unsupported operators.
    ModelLoad,
    /// Inference was requested before the registry was initialized.
    NotInitialized,
    /// The input bytes are not a decodable raster image.
    ImageDecode,
    /// The graph failed to run, or its outputs do not have the expected shape.
    Inference,
    /// The detector ran but produced no candidate boxes.
    NoFaceDetected,
}

} // verus!
