use facenet::detection::{decode_detection, embedding_from_outputs, BoundingBox, OutputTensor};
use facenet::error::FaceError;
use facenet::layout::to_planar;
use facenet::pipeline::{
    detect, detector_input, embedder_input, embedding, input_from_decoded, FaceGraph, GraphInput,
    Normalization,
};
use facenet::registry::Registry;
use std::cell::RefCell;

fn bits(v: &[f32]) -> Vec<u32> {
    v.iter().map(|x| x.to_bits()).collect()
}

fn tensor(shape: &[usize], values: &[f32]) -> OutputTensor {
    OutputTensor { shape: shape.to_vec(), values: bits(values) }
}

fn png_bytes(width: u32, height: u32, rgb: [u8; 3]) -> Vec<u8> {
    let img = image::RgbImage::from_pixel(width, height, image::Rgb(rgb));
    let mut out = std::io::Cursor::new(Vec::new());
    img.write_to(&mut out, image::ImageOutputFormat::Png).unwrap();
    out.into_inner()
}

/// A graph that hands back fixed outputs and records what it was fed.
struct MockGraph {
    outputs: Option<Vec<(Vec<usize>, Vec<f32>)>>,
    seen: RefCell<Vec<(u32, u32, usize, Normalization)>>,
}

impl MockGraph {
    fn new(outputs: Option<Vec<(Vec<usize>, Vec<f32>)>>) -> MockGraph {
        MockGraph { outputs, seen: RefCell::new(Vec::new()) }
    }
}

impl FaceGraph for MockGraph {
    fn run(&self, input: &GraphInput) -> Option<Vec<OutputTensor>> {
        let image = &input.image;
        self.seen.borrow_mut().push((image.width, image.height, image.samples.len(), input.normalization));
        self.outputs
            .as_ref()
            .map(|outs| outs.iter().map(|(s, v)| tensor(s, v)).collect())
    }
}

fn three_candidates() -> Vec<(Vec<usize>, Vec<f32>)> {
    vec![
        (vec![1, 3, 2], vec![0.8, 0.2, 0.1, 0.9, 0.5, 0.5]),
        (
            vec![1, 3, 4],
            vec![0.0, 0.1, 0.2, 0.3, 1.0, 1.1, 1.2, 1.3, 2.0, 2.1, 2.2, 2.3],
        ),
    ]
}

fn ready(detector: MockGraph, embedder: MockGraph) -> Registry<MockGraph> {
    let mut reg = Registry::new();
    assert_eq!(reg.initialize(Some(detector), Some(embedder)), Ok(()));
    reg
}

#[test]
fn detect_selects_highest_confidence() {
    let reg = ready(MockGraph::new(Some(three_candidates())), MockGraph::new(None));
    let (b, conf) = detect(&reg, &png_bytes(16, 12, [100, 150, 200])).unwrap();
    assert_eq!(f32::from_bits(conf), 0.9);
    assert_eq!(b, BoundingBox { left: 1.0f32.to_bits(), top: 1.1f32.to_bits(), right: 1.2f32.to_bits(), bottom: 1.3f32.to_bits() });
}

#[test]
fn detect_without_candidates_fails() {
    let outs = vec![(vec![1, 0, 2], vec![]), (vec![1, 0, 4], vec![])];
    let reg = ready(MockGraph::new(Some(outs)), MockGraph::new(None));
    assert!(matches!(detect(&reg, &png_bytes(8, 8, [0, 0, 0])), Err(FaceError::NoFaceDetected)));
}

#[test]
fn detect_returns_raw_coordinates() {
    let outs = vec![
        (vec![1, 1, 2], vec![0.0, 3.5]),
        (vec![1, 1, 4], vec![-0.5, 1.5, -2.0, 7.0]),
    ];
    let reg = ready(MockGraph::new(Some(outs)), MockGraph::new(None));
    let (b, conf) = detect(&reg, &png_bytes(8, 8, [0, 0, 0])).unwrap();
    assert_eq!(f32::from_bits(conf), 3.5);
    assert_eq!(f32::from_bits(b.left), -0.5);
    assert_eq!(f32::from_bits(b.top), 1.5);
    assert_eq!(f32::from_bits(b.right), -2.0);
    assert_eq!(f32::from_bits(b.bottom), 7.0);
}

#[test]
fn ties_go_to_the_lowest_index() {
    let outs = vec![
        tensor(&[1, 3, 2], &[0.0, 0.7, 0.0, 0.7, 0.0, 0.3]),
        tensor(&[12], &[0.0, 0.0, 0.0, 0.0, 1.0, 1.0, 1.0, 1.0, 2.0, 2.0, 2.0, 2.0]),
    ];
    let (b, conf) = decode_detection(&outs).unwrap();
    assert_eq!(f32::from_bits(conf), 0.7);
    assert_eq!(f32::from_bits(b.left), 0.0);
}

#[test]
fn negative_confidences_are_ordered_numerically() {
    let outs = vec![
        tensor(&[1, 3, 2], &[0.0, -0.5, 0.0, -0.1, 0.0, -3.0]),
        tensor(&[1, 3, 4], &[0.0, 0.0, 0.0, 0.0, 1.0, 1.0, 1.0, 1.0, 2.0, 2.0, 2.0, 2.0]),
    ];
    let (b, conf) = decode_detection(&outs).unwrap();
    assert_eq!(f32::from_bits(conf), -0.1);
    assert_eq!(f32::from_bits(b.left), 1.0);
}

#[test]
fn both_zeros_compare_equal() {
    let outs = vec![
        tensor(&[1, 2, 2], &[0.0, -0.0, 0.0, 0.0]),
        tensor(&[8], &[5.0, 5.0, 5.0, 5.0, 6.0, 6.0, 6.0, 6.0]),
    ];
    let (b, _) = decode_detection(&outs).unwrap();
    assert_eq!(f32::from_bits(b.left), 5.0);
}

#[test]
fn mismatched_candidate_counts_fail() {
    let outs = vec![
        tensor(&[1, 3, 2], &[0.0, 0.1, 0.0, 0.2, 0.0, 0.9]),
        tensor(&[8], &[5.0, 5.0, 5.0, 5.0, 6.0, 6.0, 6.0, 6.0]),
    ];
    assert_eq!(decode_detection(&outs), Err(FaceError::Inference));
    let outs = vec![
        tensor(&[1, 1, 2], &[0.0, 0.9]),
        tensor(&[8], &[5.0, 5.0, 5.0, 5.0, 6.0, 6.0, 6.0, 6.0]),
    ];
    assert_eq!(decode_detection(&outs), Err(FaceError::Inference));
}

#[test]
fn unreadable_outputs_are_inference_errors() {
    let boxes = tensor(&[4], &[0.0, 0.0, 1.0, 1.0]);
    // Too few outputs.
    assert_eq!(decode_detection(&vec![tensor(&[1, 1, 2], &[0.0, 0.5])]), Err(FaceError::Inference));
    // Confidences of the wrong rank.
    let outs = vec![tensor(&[2], &[0.0, 0.5]), tensor(&[4], &[0.0, 0.0, 1.0, 1.0])];
    assert_eq!(decode_detection(&outs), Err(FaceError::Inference));
    // Only one class per candidate.
    let outs = vec![tensor(&[1, 1, 1], &[0.5]), tensor(&[4], &[0.0, 0.0, 1.0, 1.0])];
    assert_eq!(decode_detection(&outs), Err(FaceError::Inference));
    // Fewer values than the shape claims.
    let outs = vec![tensor(&[1, 2, 2], &[0.0, 0.5]), tensor(&[4], &[0.0, 0.0, 1.0, 1.0])];
    assert_eq!(decode_detection(&outs), Err(FaceError::Inference));
    // More values than the shape claims.
    let outs = vec![tensor(&[1, 1, 2], &[0.0, 0.5, 0.7]), tensor(&[4], &[0.0, 0.0, 1.0, 1.0])];
    assert_eq!(decode_detection(&outs), Err(FaceError::Inference));
    // Box values not in whole records.
    let outs = vec![tensor(&[1, 1, 2], &[0.0, 0.5]), tensor(&[3], &[0.0, 0.0, 1.0])];
    assert_eq!(decode_detection(&outs), Err(FaceError::Inference));
    // A NaN confidence.
    let outs = vec![tensor(&[1, 1, 2], &[0.0, f32::NAN]), boxes];
    assert_eq!(decode_detection(&outs), Err(FaceError::Inference));
}

#[test]
fn graph_failure_is_an_inference_error() {
    let reg = ready(MockGraph::new(None), MockGraph::new(None));
    let img = png_bytes(8, 8, [1, 2, 3]);
    assert!(matches!(detect(&reg, &img), Err(FaceError::Inference)));
    assert!(matches!(embedding(&reg, &img), Err(FaceError::Inference)));
}

#[test]
fn calls_before_initialize_fail() {
    let reg: Registry<MockGraph> = Registry::new();
    let img = png_bytes(8, 8, [1, 2, 3]);
    assert!(matches!(detect(&reg, &img), Err(FaceError::NotInitialized)));
    assert!(matches!(embedding(&reg, &img), Err(FaceError::NotInitialized)));
}

#[test]
fn failed_initialize_leaves_registry_uninitialized() {
    let mut reg: Registry<MockGraph> = Registry::new();
    assert_eq!(reg.initialize(None, Some(MockGraph::new(None))), Err(FaceError::ModelLoad));
    assert_eq!(reg.initialize(Some(MockGraph::new(None)), None), Err(FaceError::ModelLoad));
    assert!(matches!(detect(&reg, &png_bytes(8, 8, [1, 2, 3])), Err(FaceError::NotInitialized)));
}

#[test]
fn initialize_twice_uses_the_new_graphs() {
    let mut reg = ready(MockGraph::new(None), MockGraph::new(None));
    let embed_out = vec![(vec![1, 2], vec![0.25, -1.0])];
    assert_eq!(
        reg.initialize(Some(MockGraph::new(Some(three_candidates()))), Some(MockGraph::new(Some(embed_out)))),
        Ok(())
    );
    let img = png_bytes(8, 8, [1, 2, 3]);
    let (_, conf) = detect(&reg, &img).unwrap();
    assert_eq!(f32::from_bits(conf), 0.9);
    let e = embedding(&reg, &img).unwrap();
    assert_eq!(e.values, bits(&[0.25, -1.0]));
}

#[test]
fn undecodable_bytes_fail() {
    let reg = ready(MockGraph::new(Some(three_candidates())), MockGraph::new(None));
    let junk = vec![1u8, 2, 3, 4, 5];
    assert!(matches!(detect(&reg, &junk), Err(FaceError::ImageDecode)));
    assert!(matches!(embedding(&reg, &junk), Err(FaceError::ImageDecode)));
    assert!(matches!(detector_input(&Vec::new()), Err(FaceError::ImageDecode)));
}

#[test]
fn graphs_get_inputs_of_their_fixed_size() {
    let reg = ready(
        MockGraph::new(Some(three_candidates())),
        MockGraph::new(Some(vec![(vec![3], vec![1.0, 2.0, 3.0])])),
    );
    let img = png_bytes(37, 23, [9, 8, 7]);
    detect(&reg, &img).unwrap();
    embedding(&reg, &img).unwrap();
    let det = reg.detector().unwrap().seen.borrow().clone();
    let emb = reg.embedder().unwrap().seen.borrow().clone();
    assert_eq!(det, vec![(320, 240, 3 * 240 * 320, Normalization::ImageNet)]);
    assert_eq!(emb, vec![(140, 140, 3 * 140 * 140, Normalization::UnitScale)]);
}

#[test]
fn uniform_image_resizes_to_uniform_planes() {
    let input = detector_input(&png_bytes(50, 30, [10, 20, 30])).unwrap();
    assert_eq!(input.normalization, Normalization::ImageNet);
    let p = input.image;
    assert_eq!((p.width, p.height), (320, 240));
    let plane = 320 * 240;
    assert_eq!(p.samples.len(), 3 * plane);
    assert!(p.samples[..plane].iter().all(|&s| s == 10));
    assert!(p.samples[plane..2 * plane].iter().all(|&s| s == 20));
    assert!(p.samples[2 * plane..].iter().all(|&s| s == 30));
    let input = embedder_input(&png_bytes(200, 300, [128, 0, 255])).unwrap();
    assert_eq!(input.normalization, Normalization::UnitScale);
    let q = input.image;
    assert_eq!((q.width, q.height, q.samples.len()), (140, 140, 3 * 140 * 140));
    assert_eq!(q.samples[0], 128);
    assert_eq!(q.samples[140 * 140], 0);
    assert_eq!(q.samples[2 * 140 * 140], 255);
}

#[test]
fn planar_layout_moves_channels_to_planes() {
    // Two by two pixels, interleaved RGB.
    let pixels = vec![1, 2, 3, 4, 5, 6, 7, 8, 9, 10, 11, 12];
    let p = to_planar(2, 2, &pixels);
    assert_eq!(p.samples, vec![1, 4, 7, 10, 2, 5, 8, 11, 3, 6, 9, 12]);
    assert_eq!(to_planar(0, 0, &Vec::new()).samples, Vec::<u8>::new());
}

#[test]
fn embedding_is_deterministic() {
    let out = vec![(vec![1, 4], vec![0.5, -0.25, 3.0, 1e-3])];
    let reg = ready(MockGraph::new(None), MockGraph::new(Some(out)));
    let a = png_bytes(20, 20, [40, 80, 120]);
    let b = a.clone();
    let ea = embedding(&reg, &a).unwrap();
    let eb = embedding(&reg, &b).unwrap();
    assert_eq!(ea.values, eb.values);
    assert_eq!(embedder_input(&a).unwrap().image.samples, embedder_input(&b).unwrap().image.samples);
}

#[test]
fn embedding_is_the_first_output_flattened() {
    let outs = vec![tensor(&[1, 2, 2], &[1.0, 2.0, 3.0, 4.0]), tensor(&[1], &[9.0])];
    assert_eq!(embedding_from_outputs(&outs).unwrap().values, bits(&[1.0, 2.0, 3.0, 4.0]));
    assert!(matches!(embedding_from_outputs(&Vec::new()), Err(FaceError::Inference)));
}

#[test]
fn decoded_image_is_resampled_and_laid_out() {
    // Three by two pixels, all (5, 6, 7).
    let pixels: Vec<u8> = [5u8, 6, 7].iter().cycle().take(18).cloned().collect();
    let p = input_from_decoded(3, 2, pixels, 4, 4).unwrap();
    assert_eq!((p.width, p.height), (4, 4));
    let mut expected = vec![5u8; 16];
    expected.extend(vec![6u8; 16]);
    expected.extend(vec![7u8; 16]);
    assert_eq!(p.samples, expected);
    assert!(matches!(input_from_decoded(0, 5, Vec::new(), 4, 4), Err(FaceError::ImageDecode)));
}

#[test]
fn batch_of_two_reads_the_first_item() {
    let outs = vec![
        tensor(&[2, 2, 2], &[0.0, 0.3, 0.0, 0.6, 0.0, 0.9, 0.0, 0.1]),
        tensor(&[8], &[5.0, 5.0, 5.0, 5.0, 6.0, 6.0, 6.0, 6.0]),
    ];
    let (b, conf) = decode_detection(&outs).unwrap();
    assert_eq!(f32::from_bits(conf), 0.6);
    assert_eq!(f32::from_bits(b.left), 6.0);
}
