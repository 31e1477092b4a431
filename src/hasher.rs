//! Extracting a rectangle of a frame, normalising its samples and
//! fingerprinting the result.

use vstd::prelude::*;
use crate::frame::{GrayImage, region, extract_region};

verus! {

/// How the samples of a region are normalised before fingerprinting.
///
/// Samples within `[low, high]` are zeroed (anti-aliasing noise); the two
/// special values are both mapped to `canonical` (two renderings of one glyph
/// colour); every other sample is zeroed.
#[derive(Clone, Copy, Debug, PartialEq, Eq, Structural)]
pub struct FilterConfig {
    pub low: u8,
    pub high: u8,
    pub special_a: u8,
    pub special_b: u8,
    pub canonical: u8,
}

pub open spec fn filter_sample(cfg: FilterConfig, b: u8) -> u8 {
    if cfg.low <= b && b <= cfg.high {
        0
    } else if b == cfg.special_a || b == cfg.special_b {
        cfg.canonical
    } else {
        0
    }
}

pub open spec fn filter_samples(cfg: FilterConfig, s: Seq<u8>) -> Seq<u8> {
    s.map_values(|b: u8| filter_sample(cfg, b))
}

/// The samples of a mid-gray band are dropped to black.
pub open spec fn gray_to_black(b: u8) -> u8 {
    if 50 <= b && b <= 100 {
        0
    } else {
        b
    }
}

/// The fingerprint of a byte sequence: what `farmhash::hash64` returns on it.
pub uninterp spec fn fingerprint_of(bytes: Seq<u8>) -> u64;

/// Relies on `farmhash::hash64`, a seedless function of the bytes alone.
#[verifier::external_body]
fn farm_hash64(bytes: &[u8]) -> (r: u64)
    ensures
        r == fingerprint_of(bytes@),
{
    farmhash::hash64(bytes)
}

/// The 64-bit fingerprint of `bytes`; the lookup tables are keyed by it.
pub fn hash(bytes: &[u8]) -> (r: u64)
    ensures
        r == fingerprint_of(bytes@),
{
    farm_hash64(bytes)
}

/// Equal byte sequences have equal fingerprints, call after call.
pub proof fn lemma_hash_deterministic(a: Seq<u8>, b: Seq<u8>)
    requires
        a == b,
    ensures
        fingerprint_of(a) == fingerprint_of(b),
{
}

pub fn filter_byte(cfg: &FilterConfig, b: u8) -> (r: u8)
    ensures
        r == filter_sample(*cfg, b),
{
    if cfg.low <= b && b <= cfg.high {
        0
    } else if b == cfg.special_a || b == cfg.special_b {
        cfg.canonical
    } else {
        0
    }
}

/// The samples of the rectangle `(x, y, w, h)`, row after row, each
/// normalised by `cfg`; `None` where the rectangle leaves the frame.
pub fn extract_and_filter(img: &GrayImage, x: u32, y: u32, w: u32, h: u32, cfg: &FilterConfig) -> (r:
    Option<Vec<u8>>)
    requires
        img.wf(),
    ensures
        r is None <==> (x + w > img.width || y + h > img.height),
        r matches Some(v) ==> v@ == filter_samples(
            *cfg,
            region(img@, x as int, y as int, w as int, h as int),
        ),
{
    match extract_region(img, x, y, w, h) {
        None => None,
        Some(mut v) => {
            let ghost raw = v@;
            let mut i: usize = 0;
            while i < v.len()
                invariant
                    i <= v@.len(),
                    v@.len() == raw.len(),
                    forall|k: int| 0 <= k < i ==> v@[k] == filter_sample(*cfg, #[trigger] raw[k]),
                    forall|k: int| i <= k < v@.len() ==> v@[k] == raw[k],
                decreases v@.len() - i,
            {
                let f = filter_byte(cfg, v[i]);
                v.set(i, f);
                i = i + 1;
            }
            proof {
                assert(v@ =~= filter_samples(*cfg, raw));
            }
            Some(v)
        },
    }
}

/// Drops every sample of the mid-gray band `[50, 100]` to black, in place.
pub fn filter_grays_to_black(samples: &mut Vec<u8>)
    ensures
        final(samples)@ == old(samples)@.map_values(|b: u8| gray_to_black(b)),
{
    let ghost raw = samples@;
    let mut i: usize = 0;
    while i < samples.len()
        invariant
            i <= samples@.len(),
            samples@.len() == raw.len(),
            forall|k: int| 0 <= k < i ==> samples@[k] == gray_to_black(#[trigger] raw[k]),
            forall|k: int| i <= k < samples@.len() ==> samples@[k] == raw[k],
        decreases samples@.len() - i,
    {
        let b = samples[i];
        if 50 <= b && b <= 100 {
            samples.set(i, 0);
        }
        i = i + 1;
    }
    proof {
        assert(samples@ =~= raw.map_values(|b: u8| gray_to_black(b)));
    }
}

} // verus!
