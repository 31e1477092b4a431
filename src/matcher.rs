//! Locating a small reference image inside a larger grayscale frame.
//!
//! Similarity at a position is `1 - d / (255 * n)`, where `d` is the sum of
//! absolute differences between the needle and the haystack window at that
//! position and `n` is the number of samples in the needle: identical windows
//! score 1, windows that differ by the full range everywhere score 0.
//! Confidences and overlap bounds are given in thousandths, so that a
//! confidence of `1000` asks for an exact match.

use vstd::prelude::*;
use crate::frame::{GrayImage, ImageView, lemma_run_in_bounds};

verus! {

/// The largest confidence and the largest overlap bound: one, in thousandths.
pub const FULL_SCALE: u32 = 1000;

/// A rectangle of a frame: top-left corner and size.
#[derive(Clone, Copy, Debug, PartialEq, Eq, Structural)]
pub struct BoundingBox {
    pub x: i64,
    pub y: i64,
    pub width: u32,
    pub height: u32,
}

/// Why a search could not be made.
#[derive(Clone, Copy, Debug, PartialEq, Eq, Structural)]
pub enum MatchError {
    /// The haystack or the needle has no samples.
    EmptyImage,
    /// The needle is wider or taller than the haystack.
    InvalidDimensions,
    /// The confidence lies above one.
    InvalidConfidence,
}

/// A position that met the confidence, with its sum of differences.
#[derive(Clone, Copy, Debug, PartialEq, Eq, Structural)]
pub struct Candidate {
    pub sad: u128,
    pub x: u32,
    pub y: u32,
}

pub open spec fn abs_diff(a: u8, b: u8) -> nat {
    if a >= b {
        (a - b) as nat
    } else {
        (b - a) as nat
    }
}

/// Sum of differences over the first `c` samples of needle row `r`, with the
/// needle placed at `(x, y)`.
pub open spec fn row_sad(h: ImageView, n: ImageView, x: int, y: int, r: int, c: int) -> nat
    decreases c,
{
    if c <= 0 {
        0
    } else {
        row_sad(h, n, x, y, r, c - 1) + abs_diff(h.px(x + c - 1, y + r), n.px(c - 1, r))
    }
}

/// Sum of differences over the first `r` needle rows.
pub open spec fn block_sad(h: ImageView, n: ImageView, x: int, y: int, r: int) -> nat
    decreases r,
{
    if r <= 0 {
        0
    } else {
        block_sad(h, n, x, y, r - 1) + row_sad(h, n, x, y, r - 1, n.width)
    }
}

/// Sum of absolute differences between the needle and the haystack window
/// whose top-left corner is `(x, y)`.
pub open spec fn sad(h: ImageView, n: ImageView, x: int, y: int) -> nat {
    block_sad(h, n, x, y, n.height)
}

/// Number of needle placements in a haystack row.
pub open spec fn grid_cols(h: ImageView, n: ImageView) -> int {
    h.width - n.width + 1
}

/// Number of needle placements in a haystack column.
pub open spec fn grid_rows(h: ImageView, n: ImageView) -> int {
    h.height - n.height + 1
}

/// Number of needle placements; placement `p` is column `p % cols`, row
/// `p / cols`, so that placements are numbered in raster order.
pub open spec fn n_positions(h: ImageView, n: ImageView) -> int {
    grid_rows(h, n) * grid_cols(h, n)
}

pub open spec fn pos_x(h: ImageView, n: ImageView, p: int) -> int {
    p % grid_cols(h, n)
}

pub open spec fn pos_y(h: ImageView, n: ImageView, p: int) -> int {
    p / grid_cols(h, n)
}

pub open spec fn sad_at(h: ImageView, n: ImageView, p: int) -> nat {
    sad(h, n, pos_x(h, n, p), pos_y(h, n, p))
}

/// The similarity `1 - d / (255 * n)` is at least `confidence / 1000`.
pub open spec fn meets_confidence(d: int, n_pixels: int, confidence: int) -> bool {
    1000 * (255 * n_pixels - d) >= confidence * 255 * n_pixels
}

pub open spec fn position_meets(h: ImageView, n: ImageView, p: int, confidence: int) -> bool {
    meets_confidence(sad_at(h, n, p) as int, n.width * n.height, confidence)
}

/// The most similar of the first `p` placements; of equally similar ones the
/// first in raster order.
pub open spec fn best_position(h: ImageView, n: ImageView, p: int) -> int
    decreases p,
{
    if p <= 1 {
        0
    } else {
        let b = best_position(h, n, p - 1);
        if sad_at(h, n, p - 1) < sad_at(h, n, b) {
            p - 1
        } else {
            b
        }
    }
}

pub open spec fn box_at(h: ImageView, n: ImageView, p: int) -> BoundingBox {
    BoundingBox {
        x: pos_x(h, n, p) as i64,
        y: pos_y(h, n, p) as i64,
        width: n.width as u32,
        height: n.height as u32,
    }
}

/// The error a search on these inputs fails with, if any.
pub open spec fn match_error(h: ImageView, n: ImageView, confidence: int) -> Option<MatchError> {
    if h.width == 0 || h.height == 0 || n.width == 0 || n.height == 0 {
        Some(MatchError::EmptyImage)
    } else if n.width > h.width || n.height > h.height {
        Some(MatchError::InvalidDimensions)
    } else if confidence > 1000 {
        Some(MatchError::InvalidConfidence)
    } else {
        None
    }
}

/// What `locate_single` returns.
pub open spec fn locate_single_spec(h: ImageView, n: ImageView, confidence: int) -> Result<
    Option<BoundingBox>,
    MatchError,
> {
    match match_error(h, n, confidence) {
        Some(e) => Err(e),
        None => {
            let b = best_position(h, n, n_positions(h, n));
            if position_meets(h, n, b, confidence) {
                Ok(Some(box_at(h, n, b)))
            } else {
                Ok(None)
            }
        },
    }
}

pub open spec fn candidate_at(h: ImageView, n: ImageView, p: int) -> Candidate {
    Candidate { sad: sad_at(h, n, p) as u128, x: pos_x(h, n, p) as u32, y: pos_y(h, n, p) as u32 }
}

/// Where `c` goes in `s`, a sequence ordered by ascending difference: after
/// every candidate that is at least as similar.
pub open spec fn insert_pos(s: Seq<Candidate>, c: Candidate) -> int
    decreases s.len(),
{
    if s.len() == 0 {
        0
    } else if s[0].sad > c.sad {
        0
    } else {
        1 + insert_pos(s.drop_first(), c)
    }
}

/// The placements among the first `p` that meet the confidence, most similar
/// first; equally similar ones in raster order.
pub open spec fn ranked_candidates(h: ImageView, n: ImageView, confidence: int, p: int) -> Seq<
    Candidate,
>
    decreases p,
{
    if p <= 0 {
        Seq::empty()
    } else {
        let prev = ranked_candidates(h, n, confidence, p - 1);
        if position_meets(h, n, p - 1, confidence) {
            let c = candidate_at(h, n, p - 1);
            prev.insert(insert_pos(prev, c), c)
        } else {
            prev
        }
    }
}

/// Length of the overlap of the spans `[a0, a0 + al)` and `[b0, b0 + bl)`.
pub open spec fn span_overlap(a0: int, al: int, b0: int, bl: int) -> int {
    let lo = if a0 > b0 {
        a0
    } else {
        b0
    };
    let hi = if a0 + al < b0 + bl {
        a0 + al
    } else {
        b0 + bl
    };
    if hi > lo {
        hi - lo
    } else {
        0
    }
}

pub open spec fn intersection_area(a: BoundingBox, b: BoundingBox) -> int {
    span_overlap(a.x as int, a.width as int, b.x as int, b.width as int) * span_overlap(
        a.y as int,
        a.height as int,
        b.y as int,
        b.height as int,
    )
}

pub open spec fn union_area(a: BoundingBox, b: BoundingBox) -> int {
    a.width * a.height + b.width * b.height - intersection_area(a, b)
}

/// Intersection over union of `a` and `b` is at most `max_overlap / 1000`.
pub open spec fn overlap_within(a: BoundingBox, b: BoundingBox, max_overlap: int) -> bool {
    intersection_area(a, b) * 1000 <= max_overlap * union_area(a, b)
}

pub open spec fn compatible_with_all(
    kept: Seq<BoundingBox>,
    b: BoundingBox,
    max_overlap: int,
) -> bool {
    forall|i: int| 0 <= i < kept.len() ==> overlap_within(#[trigger] kept[i], b, max_overlap)
}

pub open spec fn candidate_box(c: Candidate, n: ImageView) -> BoundingBox {
    BoundingBox { x: c.x as i64, y: c.y as i64, width: n.width as u32, height: n.height as u32 }
}

/// Greedy suppression: each candidate in turn is kept when its overlap with
/// every box kept before it is within the bound.
pub open spec fn suppress(s: Seq<Candidate>, n: ImageView, max_overlap: int) -> Seq<BoundingBox>
    decreases s.len(),
{
    if s.len() == 0 {
        Seq::empty()
    } else {
        let kept = suppress(s.drop_last(), n, max_overlap);
        let b = candidate_box(s.last(), n);
        if compatible_with_all(kept, b, max_overlap) {
            kept.push(b)
        } else {
            kept
        }
    }
}

/// What `locate_all` returns.
pub open spec fn locate_all_spec(
    h: ImageView,
    n: ImageView,
    confidence: int,
    max_overlap: int,
) -> Result<Seq<BoundingBox>, MatchError> {
    match match_error(h, n, confidence) {
        Some(e) => Err(e),
        None => Ok(
            suppress(ranked_candidates(h, n, confidence, n_positions(h, n)), n, max_overlap),
        ),
    }
}

proof fn lemma_position_bounds(p: int, cols: int, rows: int)
    requires
        0 <= p < rows * cols,
        cols > 0,
    ensures
        0 <= p % cols < cols,
        0 <= p / cols < rows,
{
    vstd::arithmetic::div_mod::lemma_fundamental_div_mod(p, cols);
    vstd::arithmetic::div_mod::lemma_mod_bound(p, cols);
    let q = p / cols;
    let m = p % cols;
    assert(q >= 0) by (nonlinear_arith)
        requires
            p == cols * q + m,
            0 <= m < cols,
            p >= 0,
            cols > 0,
    ;
    assert(q < rows) by (nonlinear_arith)
        requires
            p == cols * q + m,
            0 <= m,
            p < rows * cols,
            cols > 0,
    ;
}

fn check_inputs(haystack: &GrayImage, needle: &GrayImage, confidence: u32) -> (r: Option<
    MatchError,
>)
    ensures
        r == match_error(haystack@, needle@, confidence as int),
{
    if haystack.width == 0 || haystack.height == 0 || needle.width == 0 || needle.height == 0 {
        Some(MatchError::EmptyImage)
    } else if needle.width > haystack.width || needle.height > haystack.height {
        Some(MatchError::InvalidDimensions)
    } else if confidence > FULL_SCALE {
        Some(MatchError::InvalidConfidence)
    } else {
        None
    }
}

/// Sum of absolute differences with the needle placed at `(x, y)`.
fn window_sad(haystack: &GrayImage, needle: &GrayImage, x: u32, y: u32) -> (r: u128)
    requires
        haystack.wf(),
        needle.wf(),
        x as int + needle.width <= haystack.width,
        y as int + needle.height <= haystack.height,
    ensures
        r == sad(haystack@, needle@, x as int, y as int),
        r <= 255 * (needle.width * needle.height),
{
    let ghost h = haystack@;
    let ghost n = needle@;
    let n_len = needle.pixels.len();
    let nw = needle.width;
    let nh = needle.height;
    let mut acc: u128 = 0;
    let mut r: u32 = 0;
    while r < nh
        invariant
            h == haystack@,
            n == needle@,
            haystack.wf(),
            needle.wf(),
            nw == needle.width,
            nh == needle.height,
            n_len == n.pixels.len(),
            x as int + nw <= h.width,
            y as int + nh <= h.height,
            r <= nh,
            acc == block_sad(h, n, x as int, y as int, r as int),
            acc <= 255 * (r * nw),
        decreases nh - r,
    {
        let mut c: u32 = 0;
        while c < nw
            invariant
                h == haystack@,
                n == needle@,
                haystack.wf(),
                needle.wf(),
                nw == needle.width,
                nh == needle.height,
                n_len == n.pixels.len(),
                x as int + nw <= h.width,
                y as int + nh <= h.height,
                r < nh,
                c <= nw,
                acc == block_sad(h, n, x as int, y as int, r as int) + row_sad(
                    h,
                    n,
                    x as int,
                    y as int,
                    r as int,
                    c as int,
                ),
                acc <= 255 * (r * nw) + 255 * c,
            decreases nw - c,
        {
            proof {
                lemma_run_in_bounds(c as int, r as int, 1, nw as int, nh as int);
            }
            let a = haystack.pixel(x + c, y + r);
            let b = needle.pixel(c, r);
            let d: u8 = if a >= b {
                a - b
            } else {
                b - a
            };
            acc = acc + d as u128;
            c = c + 1;
        }
        proof {
            assert(255 * (r * nw) + 255 * nw == 255 * ((r + 1) * nw)) by (nonlinear_arith);
        }
        r = r + 1;
    }
    proof {
        assert(nh * nw == nw * nh) by (nonlinear_arith);
    }
    acc
}

/// Whether a window with difference sum `d` meets the confidence.
fn meets(d: u128, n_pixels: u128, confidence: u32) -> (r: bool)
    requires
        d <= 255 * n_pixels,
        n_pixels <= 0xffff_ffff_ffff_ffff,
        confidence <= 1000,
    ensures
        r == meets_confidence(d as int, n_pixels as int, confidence as int),
{
    proof {
        assert(confidence as int * 255 * n_pixels <= 1000 * 255 * 0xffff_ffff_ffff_ffffu128)
            by (nonlinear_arith)
            requires
                confidence <= 1000,
                n_pixels <= 0xffff_ffff_ffff_ffff,
        ;
    }
    let lhs = 1000 * (255 * n_pixels - d);
    let rhs = confidence as u128 * 255 * n_pixels;
    lhs >= rhs
}

/// The number of samples in a well-formed needle, with its bound.
fn pixel_count(needle: &GrayImage) -> (r: u128)
    requires
        needle.wf(),
    ensures
        r == needle.width * needle.height,
        r <= 0xffff_ffff_ffff_ffff,
{
    needle.pixels.len() as u128
}

/// Column and row of placement `p`.
fn position_of(cols: u32, rows: u32, p: u64) -> (r: (u32, u32))
    requires
        cols > 0,
        p < rows * cols,
    ensures
        r.0 == (p as int) % (cols as int),
        r.1 == (p as int) / (cols as int),
        r.0 < cols,
        r.1 < rows,
{
    proof {
        lemma_position_bounds(p as int, cols as int, rows as int);
    }
    ((p % cols as u64) as u32, (p / cols as u64) as u32)
}

/// Number of placements, with the placement grid's sides.
fn grid(haystack: &GrayImage, needle: &GrayImage) -> (r: (u32, u32, u64))
    requires
        0 < needle.width <= haystack.width,
        0 < needle.height <= haystack.height,
    ensures
        r.0 == grid_cols(haystack@, needle@),
        r.1 == grid_rows(haystack@, needle@),
        r.2 == n_positions(haystack@, needle@),
{
    let cols = haystack.width - needle.width + 1;
    let rows = haystack.height - needle.height + 1;
    proof {
        assert(rows as int * cols as int <= 0xffff_ffff * 0xffff_ffff) by (nonlinear_arith)
            requires
                rows <= 0xffff_ffff,
                cols <= 0xffff_ffff,
        ;
    }
    (cols, rows, rows as u64 * cols as u64)
}

/// The position where the needle is most similar to the haystack window
/// under it (the first in raster order among equals), when that similarity
/// meets `confidence` (in thousandths).
pub fn locate_single(haystack: &GrayImage, needle: &GrayImage, confidence: u32) -> (r: Result<
    Option<BoundingBox>,
    MatchError,
>)
    requires
        haystack.wf(),
        needle.wf(),
    ensures
        r == locate_single_spec(haystack@, needle@, confidence as int),
{
    if let Some(e) = check_inputs(haystack, needle, confidence) {
        return Err(e);
    }
    let ghost h = haystack@;
    let ghost n = needle@;
    let (cols, rows, total) = grid(haystack, needle);
    proof {
        assert(total >= 1) by (nonlinear_arith)
            requires
                total == rows * cols,
                rows >= 1,
                cols >= 1,
        ;
    }
    let (x0, y0) = position_of(cols, rows, 0);
    let mut best_p: u64 = 0;
    let mut best_sad = window_sad(haystack, needle, x0, y0);
    let mut p: u64 = 1;
    while p < total
        invariant
            h == haystack@,
            n == needle@,
            haystack.wf(),
            needle.wf(),
            match_error(h, n, confidence as int) is None,
            cols == grid_cols(h, n),
            rows == grid_rows(h, n),
            total == n_positions(h, n),
            1 <= p <= total,
            best_p < p,
            best_p == best_position(h, n, p as int),
            best_sad == sad_at(h, n, best_p as int),
            best_sad <= 255 * (n.width * n.height),
        decreases total - p,
    {
        let (x, y) = position_of(cols, rows, p);
        let s = window_sad(haystack, needle, x, y);
        if s < best_sad {
            best_p = p;
            best_sad = s;
        }
        p = p + 1;
    }
    let n_pixels = pixel_count(needle);
    if meets(best_sad, n_pixels, confidence) {
        let (bx, by) = position_of(cols, rows, best_p);
        Ok(Some(BoundingBox { x: bx as i64, y: by as i64, width: needle.width, height: needle.height }))
    } else {
        Ok(None)
    }
}

/// The placement `best_position` picks among the first `p` is as similar as
/// any of them, and strictly more similar than every one before it in raster
/// order.
pub proof fn lemma_best_position_is_first_minimum(h: ImageView, n: ImageView, p: int)
    requires
        p >= 1,
    ensures
        0 <= best_position(h, n, p) < p,
        forall|q: int|
            0 <= q < p ==> sad_at(h, n, best_position(h, n, p)) <= #[trigger] sad_at(h, n, q),
        forall|q: int|
            0 <= q < best_position(h, n, p) ==> sad_at(h, n, best_position(h, n, p))
                < #[trigger] sad_at(h, n, q),
    decreases p,
{
    if p > 1 {
        lemma_best_position_is_first_minimum(h, n, p - 1);
    }
}

/// Lowering the confidence keeps every match `locate_single` finds, at the
/// same position.
pub proof fn lemma_locate_single_monotone(h: ImageView, n: ImageView, c1: u32, c2: u32)
    requires
        h.wf(),
        n.wf(),
        c1 < c2,
        locate_single_spec(h, n, c2 as int) matches Ok(Some(_)),
    ensures
        locate_single_spec(h, n, c1 as int) == locate_single_spec(h, n, c2 as int),
{
    let b = best_position(h, n, n_positions(h, n));
    let d = sad_at(h, n, b) as int;
    assert(match_error(h, n, c2 as int) is None);
    let np = n.width * n.height;
    assert(np >= 0) by (nonlinear_arith)
        requires
            np == n.width * n.height,
            n.width > 0,
            n.height > 0,
    ;
    assert(c1 * 255 * np <= c2 * 255 * np) by (nonlinear_arith)
        requires
            c1 < c2,
            np >= 0,
    ;
}

/// Where `c` goes in `ranked`.
fn find_insert_pos(ranked: &Vec<Candidate>, c: &Candidate) -> (r: usize)
    ensures
        r == insert_pos(ranked@, *c),
        r <= ranked@.len(),
{
    let ghost s = ranked@;
    let len = ranked.len();
    let mut i: usize = 0;
    proof {
        assert(s.subrange(0, len as int) =~= s);
    }
    while i < len && ranked[i].sad <= c.sad
        invariant
            s == ranked@,
            len == s.len(),
            i <= len,
            insert_pos(s, *c) == i + insert_pos(s.subrange(i as int, len as int), *c),
        decreases len - i,
    {
        proof {
            assert(s.subrange(i as int, len as int).drop_first() =~= s.subrange(
                i + 1,
                len as int,
            ));
        }
        i = i + 1;
    }
    proof {
        if i == len {
            assert(s.subrange(i as int, len as int) =~= Seq::<Candidate>::empty());
        }
    }
    i
}

/// Length of the overlap of `[a0, a0 + al)` and `[b0, b0 + bl)`.
fn span_overlap_of(a0: i64, al: u32, b0: i64, bl: u32) -> (r: i128)
    ensures
        r == span_overlap(a0 as int, al as int, b0 as int, bl as int),
        0 <= r <= al,
        r <= bl,
{
    let a1 = a0 as i128 + al as i128;
    let b1 = b0 as i128 + bl as i128;
    let lo = if a0 > b0 {
        a0 as i128
    } else {
        b0 as i128
    };
    let hi = if a1 < b1 {
        a1
    } else {
        b1
    };
    if hi > lo {
        hi - lo
    } else {
        0
    }
}

/// Whether the overlap of `a` and `b` is within `max_overlap` thousandths.
fn overlap_ok(a: &BoundingBox, b: &BoundingBox, max_overlap: u32) -> (r: bool)
    ensures
        r == overlap_within(*a, *b, max_overlap as int),
{
    let ox = span_overlap_of(a.x, a.width, b.x, b.width);
    let oy = span_overlap_of(a.y, a.height, b.y, b.height);
    proof {
        assert(0 <= ox * oy <= 0xffff_ffff * 0xffff_ffff) by (nonlinear_arith)
            requires
                0 <= ox <= 0xffff_ffff,
                0 <= oy <= 0xffff_ffff,
        ;
        assert(0 <= a.width as int * a.height as int <= 0xffff_ffff * 0xffff_ffff)
            by (nonlinear_arith)
            requires
                a.width <= 0xffff_ffff,
                a.height <= 0xffff_ffff,
        ;
        assert(0 <= b.width as int * b.height as int <= 0xffff_ffff * 0xffff_ffff)
            by (nonlinear_arith)
            requires
                b.width <= 0xffff_ffff,
                b.height <= 0xffff_ffff,
        ;
    }
    let inter = ox * oy;
    let union = a.width as i128 * a.height as i128 + b.width as i128 * b.height as i128 - inter;
    proof {
        assert(max_overlap as int * union <= 0xffff_ffff * (4 * 0xffff_ffff * 0xffff_ffff))
            by (nonlinear_arith)
            requires
                0 <= max_overlap <= 0xffff_ffff,
                -0xffff_ffff * 0xffff_ffff <= union <= 2 * 0xffff_ffff * 0xffff_ffff,
        ;
        assert(max_overlap as int * union >= -0xffff_ffff * (4 * 0xffff_ffff * 0xffff_ffff))
            by (nonlinear_arith)
            requires
                0 <= max_overlap <= 0xffff_ffff,
                -0xffff_ffff * 0xffff_ffff <= union <= 2 * 0xffff_ffff * 0xffff_ffff,
        ;
    }
    inter * 1000 <= max_overlap as i128 * union
}

/// Every placement whose similarity meets `confidence`, most similar first
/// (equals in raster order), each kept only when its intersection over union
/// with every box kept before it is at most `max_overlap`; both are in
/// thousandths.
pub fn locate_all(
    haystack: &GrayImage,
    needle: &GrayImage,
    confidence: u32,
    max_overlap: u32,
) -> (r: Result<Vec<BoundingBox>, MatchError>)
    requires
        haystack.wf(),
        needle.wf(),
    ensures
        match r {
            Ok(v) => locate_all_spec(haystack@, needle@, confidence as int, max_overlap as int)
                == Ok::<Seq<BoundingBox>, MatchError>(v@),
            Err(e) => locate_all_spec(haystack@, needle@, confidence as int, max_overlap as int)
                == Err::<Seq<BoundingBox>, MatchError>(e),
        },
{
    if let Some(e) = check_inputs(haystack, needle, confidence) {
        return Err(e);
    }
    let ghost h = haystack@;
    let ghost n = needle@;
    let (cols, rows, total) = grid(haystack, needle);
    let n_pixels = pixel_count(needle);
    let mut ranked: Vec<Candidate> = Vec::new();
    let mut p: u64 = 0;
    while p < total
        invariant
            h == haystack@,
            n == needle@,
            haystack.wf(),
            needle.wf(),
            match_error(h, n, confidence as int) is None,
            cols == grid_cols(h, n),
            rows == grid_rows(h, n),
            total == n_positions(h, n),
            n_pixels == n.width * n.height,
            n_pixels <= 0xffff_ffff_ffff_ffff,
            p <= total,
            ranked@ == ranked_candidates(h, n, confidence as int, p as int),
        decreases total - p,
    {
        let (x, y) = position_of(cols, rows, p);
        let s = window_sad(haystack, needle, x, y);
        if meets(s, n_pixels, confidence) {
            let c = Candidate { sad: s, x, y };
            let i = find_insert_pos(&ranked, &c);
            ranked.insert(i, c);
        }
        p = p + 1;
    }
    let mut kept: Vec<BoundingBox> = Vec::new();
    let mut k: usize = 0;
    while k < ranked.len()
        invariant
            n == needle@,
            k <= ranked@.len(),
            kept@ == suppress(ranked@.subrange(0, k as int), n, max_overlap as int),
        decreases ranked@.len() - k,
    {
        let c = ranked[k];
        let b = BoundingBox { x: c.x as i64, y: c.y as i64, width: needle.width, height: needle.height };
        let mut ok = true;
        let mut j: usize = 0;
        while j < kept.len()
            invariant
                j <= kept@.len(),
                ok == (forall|i: int| 0 <= i < j ==> overlap_within(#[trigger] kept@[i], b, max_overlap as int)),
            decreases kept@.len() - j,
        {
            if !overlap_ok(&kept[j], &b, max_overlap) {
                ok = false;
            }
            j = j + 1;
        }
        proof {
            assert(ranked@.subrange(0, k + 1).drop_last() =~= ranked@.subrange(0, k as int));
        }
        if ok {
            kept.push(b);
        }
        k = k + 1;
    }
    proof {
        assert(ranked@.subrange(0, ranked@.len() as int) =~= ranked@);
    }
    Ok(kept)
}

/// Every two boxes that `suppress` keeps overlap within the bound.
pub proof fn lemma_suppress_pairwise(s: Seq<Candidate>, n: ImageView, max_overlap: int)
    ensures
        forall|i: int, j: int|
            0 <= i < j < suppress(s, n, max_overlap).len() ==> overlap_within(
                #[trigger] suppress(s, n, max_overlap)[i],
                #[trigger] suppress(s, n, max_overlap)[j],
                max_overlap,
            ),
    decreases s.len(),
{
    if s.len() > 0 {
        let kept = suppress(s.drop_last(), n, max_overlap);
        lemma_suppress_pairwise(s.drop_last(), n, max_overlap);
        let b = candidate_box(s.last(), n);
        let r = suppress(s, n, max_overlap);
        if compatible_with_all(kept, b, max_overlap) {
            assert forall|i: int, j: int| 0 <= i < j < r.len() implies overlap_within(
                r[i],
                r[j],
                max_overlap,
            ) by {
                assert(r[i] == kept[i]);
                if j < kept.len() {
                    assert(r[j] == kept[j]);
                } else {
                    assert(r[j] == b);
                }
            }
        }
    }
}

/// With an overlap bound of zero, no two boxes that `locate_all` returns
/// share any area.
pub proof fn lemma_locate_all_disjoint_at_zero(h: ImageView, n: ImageView, confidence: u32)
    requires
        locate_all_spec(h, n, confidence as int, 0) is Ok,
    ensures
        forall|i: int, j: int|
            #![trigger locate_all_spec(h, n, confidence as int, 0)->Ok_0[i], locate_all_spec(h, n, confidence as int, 0)->Ok_0[j]]
            0 <= i < j < locate_all_spec(h, n, confidence as int, 0)->Ok_0.len()
                ==> intersection_area(
                locate_all_spec(h, n, confidence as int, 0)->Ok_0[i],
                locate_all_spec(h, n, confidence as int, 0)->Ok_0[j],
            ) == 0,
{
    let s = ranked_candidates(h, n, confidence as int, n_positions(h, n));
    let r = suppress(s, n, 0);
    lemma_suppress_pairwise(s, n, 0);
    assert forall|i: int, j: int| 0 <= i < j < r.len() implies intersection_area(r[i], r[j]) == 0 by {
        assert(overlap_within(r[i], r[j], 0));
        let a = r[i];
        let b = r[j];
        let ox = span_overlap(a.x as int, a.width as int, b.x as int, b.width as int);
        let oy = span_overlap(a.y as int, a.height as int, b.y as int, b.height as int);
        assert(ox * oy >= 0) by (nonlinear_arith)
            requires
                ox >= 0,
                oy >= 0,
        ;
    }
}

} // verus!
