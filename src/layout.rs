use vstd::prelude::*;
use vstd::arithmetic::div_mod::{lemma_fundamental_div_mod_converse, lemma_mod_bound};

verus! {

/// An RGB image held channel by channel: first every red sample, then every
/// green one, then every blue one; each plane is row-major.
/// This is the sample order of an NCHW tensor with a batch of one.
pub struct PlanarImage {
    pub width: u32,
    pub height: u32,
    pub samples: Vec<u8>,
}

/// The sample of an interleaved RGB buffer that lands at position `k` of the
/// planar layout of an image with `n` pixels.
pub open spec fn planar_sample(pixels: Seq<u8>, n: int, k: int) -> u8 {
    pixels[(k % n) * 3 + k / n]
}

/// The planar layout of an interleaved RGB buffer of `n` pixels.
pub open spec fn planar_of(pixels: Seq<u8>, n: int) -> Seq<u8> {
    Seq::new((3 * n) as nat, |k: int| planar_sample(pixels, n, k))
}

impl PlanarImage {
    pub open spec fn wf(&self) -> bool {
        self.samples@.len() == 3 * (self.width as int) * (self.height as int)
    }

    /// The sample of channel `c` (0 red, 1 green, 2 blue) at column `x`, row `y`.
    pub open spec fn sample_at(&self, c: int, y: int, x: int) -> u8 {
        self.samples@[c * (self.height as int) * (self.width as int) + y * (self.width as int) + x]
    }
}

/// Rearranges an interleaved RGB buffer (three samples per pixel, pixels in
/// row-major order) into the planar layout.
pub fn to_planar(width: u32, height: u32, pixels: &Vec<u8>) -> (r: PlanarImage)
    requires
        pixels@.len() == 3 * (width as int) * (height as int),
    ensures
        r.width == width,
        r.height == height,
        r.wf(),
        r.samples@ == planar_of(pixels@, width as int * height as int),
{
    let len: usize = pixels.len();
    let n: usize = len / 3;
    proof {
        assert(pixels@.len() == (width as int * height as int) * 3) by (nonlinear_arith)
            requires pixels@.len() == 3 * (width as int) * (height as int);
        lemma_fundamental_div_mod_converse(pixels@.len() as int, 3, width as int * height as int, 0);
    }
    let mut samples: Vec<u8> = Vec::with_capacity(pixels.len());
    let mut c: usize = 0;
    while c < 3
        invariant
            0 <= c <= 3,
            n == width as int * height as int,
            pixels@.len() == 3 * n,
            len == pixels@.len(),
            samples@.len() == c * n,
            forall|k: int| 0 <= k < samples@.len() ==> samples@[k] == planar_sample(pixels@, n as int, k),
        decreases 3 - c,
    {
        let mut p: usize = 0;
        while p < n
            invariant
                0 <= c < 3,
                0 <= p <= n,
                n == width as int * height as int,
                pixels@.len() == 3 * n,
                len == pixels@.len(),
                samples@.len() == c * n + p,
                forall|k: int| 0 <= k < samples@.len() ==> samples@[k] == planar_sample(pixels@, n as int, k),
            decreases n - p,
        {
            proof {
                lemma_fundamental_div_mod_converse((c * n + p) as int, n as int, c as int, p as int);
                assert(p * 3 + c < 3 * n) by (nonlinear_arith)
                    requires p < n, c < 3;
                assert(c * n + p < 3 * n) by (nonlinear_arith)
                    requires p < n, c < 3;
            }
            samples.push(pixels[p * 3 + c]);
            p = p + 1;
        }
        assert((c + 1) * n == c * n + n) by (nonlinear_arith);
        c = c + 1;
    }
    let r = PlanarImage { width, height, samples };
    assert(r.samples@ =~= planar_of(pixels@, n as int));
    r
}

} // verus!
