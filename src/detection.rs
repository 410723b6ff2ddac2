use vstd::prelude::*;
use crate::error::FaceError;

verus! {

/// One output tensor of a graph: its shape, and its elements in row-major
/// order, each an `f32` given by its bit pattern.
pub struct OutputTensor {
    pub shape: Vec<usize>,
    pub values: Vec<u32>,
}

/// A candidate face box in the network's relative coordinates, each an `f32`
/// bit pattern.
#[derive(Debug, Clone, Copy, PartialEq, Eq, Structural)]
pub struct BoundingBox {
    pub left: u32,
    pub top: u32,
    pub right: u32,
    pub bottom: u32,
}

/// A face embedding: the `f32` bit patterns of the embedder's first output.
pub struct Embedding {
    pub values: Vec<u32>,
}

const SIGN_BIT: u32 = 0x8000_0000;
const INFINITY_BITS: u32 = 0x7f80_0000;

/// Whether an `f32` bit pattern is a NaN: all exponent bits set and a nonzero
/// fraction.
pub open spec fn is_nan_bits(b: u32) -> bool {
    b % 0x8000_0000 > 0x7f80_0000
}

/// The numeric order of non-NaN `f32` values, as an integer key: the
/// magnitude bits grow with the magnitude, and the sign flips it.
/// Both zeros get the key 0.
pub open spec fn order_key(b: u32) -> int {
    if b >= 0x8000_0000 {
        -(b - 0x8000_0000)
    } else {
        b as int
    }
}

/// The four consecutive values starting at `start`, in the order
/// left, top, right, bottom.
pub open spec fn box_at(values: Seq<u32>, start: int) -> BoundingBox {
    BoundingBox {
        left: values[start],
        top: values[start + 1],
        right: values[start + 2],
        bottom: values[start + 3],
    }
}

/// Whether a confidence tensor has the shape `(1.., n, 2..)` and holds
/// exactly as many values as that shape.
pub open spec fn confidence_shape_ok(t: OutputTensor) -> bool {
    &&& t.shape@.len() == 3
    &&& t.shape@[0] >= 1
    &&& t.shape@[2] >= 2
    &&& t.shape@[0] * t.shape@[1] * t.shape@[2] == t.values@.len()
}

/// The face-class confidences: the elements at index `[0, i, 1]`.
pub open spec fn confidences_of(t: OutputTensor) -> Seq<u32> {
    Seq::new(t.shape@[1] as nat, |i: int| t.values@[i * t.shape@[2] + 1])
}

/// The box records: each run of four values, in order.
pub open spec fn boxes_of(values: Seq<u32>) -> Seq<BoundingBox> {
    Seq::new((values.len() / 4) as nat, |i: int| box_at(values, 4 * i))
}

/// Index `i` holds the greatest of the first `n` confidences, and no earlier
/// index holds one as great.
pub open spec fn is_first_max(confs: Seq<u32>, n: int, i: int) -> bool {
    &&& 0 <= i < n
    &&& forall|j: int| 0 <= j < n ==> order_key(#[trigger] confs[j]) <= order_key(confs[i])
    &&& forall|j: int| 0 <= j < i ==> order_key(#[trigger] confs[j]) < order_key(confs[i])
}

/// Whether the detector's outputs can be read: a confidence tensor of the
/// expected shape, exactly one record of four box values for each of its
/// candidates, and no NaN among the confidences.
pub open spec fn detection_readable(outputs: Seq<OutputTensor>) -> bool {
    &&& outputs.len() >= 2
    &&& confidence_shape_ok(outputs[0])
    &&& outputs[1].values@.len() == 4 * outputs[0].shape@[1]
    &&& forall|j: int|
        0 <= j < confidences_of(outputs[0]).len() ==> !is_nan_bits(#[trigger] confidences_of(outputs[0])[j])
}

/// What reading the detector's outputs gives: `Inference` where they cannot be
/// read, `NoFaceDetected` where there is no candidate, and otherwise the box and
/// confidence of the first candidate with the greatest confidence.
pub open spec fn detection_outcome(
    outputs: Seq<OutputTensor>,
    r: Result<(BoundingBox, u32), FaceError>,
) -> bool {
    &&& !detection_readable(outputs) ==> r == Err::<(BoundingBox, u32), FaceError>(FaceError::Inference)
    &&& detection_readable(outputs) ==> {
        let confs = confidences_of(outputs[0]);
        let boxes = boxes_of(outputs[1].values@);
        let n = confs.len() as int;
        &&& n == 0 ==> r == Err::<(BoundingBox, u32), FaceError>(FaceError::NoFaceDetected)
        &&& n > 0 ==> exists|i: int|
            is_first_max(confs, n, i) && r == Ok::<(BoundingBox, u32), FaceError>((boxes[i], confs[i]))
    }
}

/// What reading the embedder's outputs gives: `Inference` where there is no
/// output, and otherwise the values of the first output in their order.
pub open spec fn embedding_outcome(outputs: Seq<OutputTensor>, r: Result<Embedding, FaceError>) -> bool {
    &&& outputs.len() == 0 ==> r is Err && r->Err_0 == FaceError::Inference
    &&& outputs.len() > 0 ==> r is Ok && r->Ok_0.values@ == outputs[0].values@
}

impl BoundingBox {
    /// The box made of the four values starting at `start`.
    pub fn new(raw: &Vec<u32>, start: usize) -> (r: BoundingBox)
        requires
            start + 4 <= raw.len(),
        ensures
            r == box_at(raw@, start as int),
    {
        BoundingBox {
            left: raw[start],
            top: raw[start + 1],
            right: raw[start + 2],
            bottom: raw[start + 3],
        }
    }
}

fn bits_are_nan(b: u32) -> (r: bool)
    ensures
        r == is_nan_bits(b),
{
    b % SIGN_BIT > INFINITY_BITS
}

fn bits_order_key(b: u32) -> (r: i64)
    ensures
        r == order_key(b),
{
    if b >= SIGN_BIT {
        -((b - SIGN_BIT) as i64)
    } else {
        b as i64
    }
}

/// Reads the detector's outputs and picks the most confident candidate.
///
/// `outputs[0]` holds the per-candidate class scores, with the face score of
/// candidate `i` at index `[0, i, 1]`; `outputs[1]` holds the boxes, four
/// values per candidate. Outputs that disagree on the number of candidates are
/// an `Inference` error. On equal confidences the lowest index wins.
pub fn decode_detection(outputs: &Vec<OutputTensor>) -> (r: Result<(BoundingBox, u32), FaceError>)
    ensures
        detection_outcome(outputs@, r),
{
    if outputs.len() < 2 {
        return Err(FaceError::Inference);
    }
    let scores = &outputs[0];
    let coords = &outputs[1];
    if scores.shape.len() != 3 || scores.shape[0] < 1 || scores.shape[2] < 2 {
        return Err(FaceError::Inference);
    }
    let value_count = scores.values.len();
    let rows = scores.shape[1];
    let stride = scores.shape[2];
    let batch = scores.shape[0];
    match batch.checked_mul(rows) {
        None => {
            proof {
                assert(batch * rows * stride > value_count) by (nonlinear_arith)
                    requires batch * rows > usize::MAX, stride >= 2, value_count <= usize::MAX;
            }
            return Err(FaceError::Inference);
        },
        Some(batch_rows) => match batch_rows.checked_mul(stride) {
            None => {
                return Err(FaceError::Inference);
            },
            Some(total) => {
                if total != value_count {
                    return Err(FaceError::Inference);
                }
            },
        },
    }
    proof {
        assert(rows * stride <= batch * rows * stride) by (nonlinear_arith)
            requires batch >= 1;
    }
    if coords.values.len() % 4 != 0 || coords.values.len() / 4 != rows {
        return Err(FaceError::Inference);
    }
    let ghost confs = confidences_of(outputs@[0]);
    let ghost boxes = boxes_of(outputs@[1].values@);
    let n: usize = rows;
    let mut best: usize = 0;
    let mut best_key: i64 = 0;
    let mut i: usize = 0;
    while i < n
        invariant
            outputs@.len() >= 2,
            *scores == outputs@[0],
            *coords == outputs@[1],
            confidence_shape_ok(outputs@[0]),
            confs == confidences_of(outputs@[0]),
            boxes == boxes_of(outputs@[1].values@),
            rows == scores.shape@[1],
            value_count == scores.values@.len(),
            rows * stride <= value_count,
            stride == scores.shape@[2],
            n == confs.len(),
            coords.values@.len() == 4 * n,
            0 <= i <= n,
            forall|j: int| 0 <= j < i ==> !is_nan_bits(#[trigger] confs[j]),
            i > 0 ==> is_first_max(confs, i as int, best as int),
            i > 0 ==> best_key == order_key(confs[best as int]),
        decreases n - i,
    {
        proof {
            assert(i * stride + 1 < rows * stride) by (nonlinear_arith)
                requires i < rows, stride >= 2;
            assert(rows * stride <= value_count);
        }
        let c = scores.values[i * stride + 1];
        assert(c == confs[i as int]);
        if bits_are_nan(c) {
            return Err(FaceError::Inference);
        }
        let key = bits_order_key(c);
        if i == 0 || key > best_key {
            best = i;
            best_key = key;
        }
        i = i + 1;
    }
    if n == 0 {
        return Err(FaceError::NoFaceDetected);
    }
    proof {
        assert(best * stride + 1 < rows * stride) by (nonlinear_arith)
            requires best < rows, stride >= 2;
    }
    let conf = scores.values[best * stride + 1];
    proof {
        assert(4 * best + 4 <= coords.values@.len()) by (nonlinear_arith)
            requires best < coords.values@.len() / 4;
    }
    let b = BoundingBox::new(&coords.values, 4 * best);
    assert(b == boxes[best as int]);
    assert(conf == confs[best as int]);
    Ok((b, conf))
}

/// Reads the embedder's outputs: the embedding is its first output, flattened.
pub fn embedding_from_outputs(outputs: &Vec<OutputTensor>) -> (r: Result<Embedding, FaceError>)
    ensures
        embedding_outcome(outputs@, r),
{
    if outputs.len() == 0 {
        return Err(FaceError::Inference);
    }
    Ok(Embedding { values: outputs[0].values.clone() })
}

} // verus!
