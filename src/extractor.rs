//! Turning a frame into typed readings: locate an anchor, place regions at
//! fixed offsets from it, fingerprint them and resolve the fingerprints.

use vstd::prelude::*;
use crate::frame::{GrayImage, ImageView, region, crop_view, crop, extract_region};
use crate::matcher::{BoundingBox, MatchError, locate_single, locate_single_spec};
use crate::hasher::{FilterConfig, filter_samples, fingerprint_of, extract_and_filter, hash};
use crate::resources::{
    LookupTable,
    RecognitionResources,
    ReadoutLayout,
    RegionOfInterest,
    VitalKind,
    TimerKind,
    CooldownGroup,
    resolve_value,
    template_position,
    lemma_template_position_in_range,
    contains_fingerprint,
};

verus! {

/// Why a reading could not be made.
#[derive(Clone, Copy, Debug, PartialEq, Eq, Structural)]
pub enum CoreError {
    /// The shared context holds no resources yet.
    NotInitialized,
    /// No resource is registered under the requested key.
    UnknownFeature,
    /// The anchors found admit no geometric reading (the right arrow is not
    /// to the right of the left one).
    MalformedGeometry,
    /// A template search could not be made.
    Match(MatchError),
}

/// The fingerprint of the glyph region `roi` placed at `anchor`, once
/// filtered; `None` where the region is empty or leaves the frame.
pub open spec fn glyph_fingerprint(
    img: ImageView,
    anchor: BoundingBox,
    roi: RegionOfInterest,
    cfg: FilterConfig,
) -> Option<u64> {
    let x = anchor.x + roi.dx;
    let y = anchor.y + roi.dy;
    if roi.width > 0 && roi.height > 0 && img.fits(x, y, roi.width as int, roi.height as int) {
        Some(
            fingerprint_of(
                filter_samples(cfg, region(img, x, y, roi.width as int, roi.height as int)),
            ),
        )
    } else {
        None
    }
}

/// What a glyph with fingerprint `fp` reads as: its table entry, or 0.
pub open spec fn fingerprint_reading(table: Map<u64, i32>, fp: Option<u64>) -> int {
    match fp {
        Some(f) => resolve_value(table, f) as int,
        None => 0,
    }
}

/// A two-part reading: `high * scale + low`.
pub open spec fn combined_reading(
    table: Map<u64, i32>,
    high: Option<u64>,
    low: Option<u64>,
    scale: int,
) -> int {
    fingerprint_reading(table, high) * scale + fingerprint_reading(table, low)
}

/// What a two-part reading returns: nothing without an anchor.
pub open spec fn readout_spec(
    img: ImageView,
    anchor: Option<BoundingBox>,
    layout: ReadoutLayout,
    cfg: FilterConfig,
    table: Map<u64, i32>,
    scale: int,
) -> Option<i64> {
    match anchor {
        None => None,
        Some(a) => Some(
            combined_reading(
                table,
                glyph_fingerprint(img, a, layout.high, cfg),
                glyph_fingerprint(img, a, layout.low, cfg),
                scale,
            ) as i64,
        ),
    }
}

pub open spec fn lift_match(r: Result<Option<BoundingBox>, MatchError>) -> Result<
    Option<BoundingBox>,
    CoreError,
> {
    match r {
        Ok(v) => Ok(v),
        Err(e) => Err(CoreError::Match(e)),
    }
}

/// The cooldown strip: a band of fixed height below the left arrow that
/// reaches to the right arrow.
pub open spec fn strip_spec(res: RecognitionResources, img: ImageView) -> Result<
    Option<ImageView>,
    CoreError,
> {
    let conf = res.anchor_confidence as int;
    match locate_single_spec(img, res.arrow_left@, conf) {
        Err(e) => Err(CoreError::Match(e)),
        Ok(left) => match locate_single_spec(img, res.arrow_right@, conf) {
            Err(e) => Err(CoreError::Match(e)),
            Ok(right) => match (left, right) {
                (Some(l), Some(r)) => if r.x <= l.x {
                    Err(CoreError::MalformedGeometry)
                } else {
                    let x = l.x as int;
                    let y = l.y + res.strip.dy;
                    let w = r.x - l.x;
                    let h = res.strip.height as int;
                    if img.fits(x, y, w, h) {
                        Ok(Some(crop_view(img, x, y, w, h)))
                    } else {
                        Ok(None)
                    }
                },
                _ => Ok(None),
            },
        },
    }
}

/// Whether the group's indicator, inside the strip `s`, shows one of the
/// group's cooling-down fingerprints; false where it leaves the strip.
pub open spec fn group_in_strip_spec(res: RecognitionResources, s: ImageView, group: CooldownGroup) -> bool {
    let g = res.group_spec(group);
    s.fits(g.x as int, g.y as int, g.width as int, g.height as int)
        && g.active_fingerprints@.contains(
        fingerprint_of(region(s, g.x as int, g.y as int, g.width as int, g.height as int)),
    )
}

/// Whether a group's indicator shows one of its cooling-down fingerprints.
pub open spec fn group_active_spec(
    res: RecognitionResources,
    img: ImageView,
    group: CooldownGroup,
) -> Result<bool, CoreError> {
    match strip_spec(res, img) {
        Err(e) => Err(e),
        Ok(None) => Ok(false),
        Ok(Some(s)) => Ok(group_in_strip_spec(res, s, group)),
    }
}

/// Whether the named ability's icon, found in the strip, shows the active
/// value at the probe row under its left edge.
pub open spec fn named_active_spec(
    res: RecognitionResources,
    img: ImageView,
    name: Seq<char>,
) -> Result<bool, CoreError> {
    match template_position(res.cooldown_templates@, name, 0) {
        None => Err(CoreError::UnknownFeature),
        Some(i) => match strip_spec(res, img) {
            Err(e) => Err(e),
            Ok(None) => Ok(false),
            Ok(Some(s)) => match locate_single_spec(
                s,
                res.cooldown_templates@[i].image@,
                res.anchor_confidence as int,
            ) {
                Err(e) => Err(CoreError::Match(e)),
                Ok(None) => Ok(false),
                Ok(Some(b)) => if 0 <= b.x < s.width && res.strip.probe_row < s.height {
                    Ok(s.px(b.x as int, res.strip.probe_row as int) == res.strip.active_value)
                } else {
                    Ok(false)
                },
            },
        },
    }
}

/// Column of an action-bar slot's probe: past the left arrow, a 2-sample gap
/// before each slot and 34 samples per earlier slot.
pub open spec fn slot_x(left_x: int, left_width: int, slot: int) -> int {
    left_x + left_width + slot * 2 + (slot - 1) * 34
}

pub open spec fn probe_is(img: ImageView, x: int, y: int, value: u8) -> bool {
    0 <= x < img.width && 0 <= y < img.height && img.px(x, y) == value
}

pub open spec fn slot_equipped_spec(
    img: ImageView,
    left_x: int,
    left_y: int,
    left_width: int,
    slot: int,
    expected: u8,
) -> bool {
    slot != 0 && probe_is(img, slot_x(left_x, left_width, slot), left_y, expected)
}

pub open spec fn slot_available_spec(
    img: ImageView,
    left_x: int,
    left_y: int,
    left_width: int,
    slot: int,
    unavailable: u8,
) -> bool {
    let x0 = slot_x(left_x, left_width, slot);
    let y = left_y + 1;
    if slot == 0 || x0 < 0 || y < 0 {
        true
    } else {
        !(probe_is(img, x0 + 2, y, unavailable) && probe_is(img, x0 + 4, y, unavailable)
            && probe_is(img, x0 + 6, y, unavailable) && probe_is(img, x0 + 8, y, unavailable)
            && probe_is(img, x0 + 10, y, unavailable))
    }
}

/// The fingerprint of the filtered glyph region `roi` placed at `anchor`.
pub fn glyph_fingerprint_of(
    img: &GrayImage,
    anchor: &BoundingBox,
    roi: &RegionOfInterest,
    cfg: &FilterConfig,
) -> (r: Option<u64>)
    requires
        img.wf(),
    ensures
        r == glyph_fingerprint(img@, *anchor, *roi, *cfg),
{
    let x = anchor.x as i128 + roi.dx as i128;
    let y = anchor.y as i128 + roi.dy as i128;
    if roi.width == 0 || roi.height == 0 || x < 0 || y < 0 || x + roi.width as i128
        > img.width as i128 || y + roi.height as i128 > img.height as i128 {
        return None;
    }
    match extract_and_filter(img, x as u32, y as u32, roi.width, roi.height, cfg) {
        Some(v) => Some(hash(v.as_slice())),
        None => None,
    }
}

/// A two-part reading from the fingerprints of its glyphs,
/// `high * scale + low`, where a part without a fingerprint or without a
/// table entry reads as 0.
pub fn reading_from_fingerprints(
    table: &LookupTable,
    high: Option<u64>,
    low: Option<u64>,
    scale: u32,
) -> (r: i64)
    requires
        scale <= 1000,
    ensures
        r == combined_reading(table@, high, low, scale as int),
{
    let h: i32 = match high {
        Some(f) => table.resolve(f),
        None => 0,
    };
    let l: i32 = match low {
        Some(f) => table.resolve(f),
        None => 0,
    };
    proof {
        assert(-0x8000_0000 * 1000 <= h as int * scale as int <= 0x7fff_ffff * 1000)
            by (nonlinear_arith)
            requires
                -0x8000_0000 <= h <= 0x7fff_ffff,
                0 <= scale <= 1000,
        ;
    }
    h as i64 * scale as i64 + l as i64
}

/// Location of a template in a frame, with search failures lifted.
fn locate_lifted(img: &GrayImage, template: &GrayImage, confidence: u32) -> (r: Result<
    Option<BoundingBox>,
    CoreError,
>)
    requires
        img.wf(),
        template.wf(),
    ensures
        r == lift_match(locate_single_spec(img@, template@, confidence as int)),
{
    match locate_single(img, template, confidence) {
        Ok(v) => Ok(v),
        Err(e) => Err(CoreError::Match(e)),
    }
}

/// The recognition engine: resources and the two filter configurations.
pub struct StateExtractor {
    pub resources: RecognitionResources,
    /// Normalisation of digit glyphs.
    pub digit_filter: FilterConfig,
    /// Normalisation of time glyphs.
    pub time_filter: FilterConfig,
}

impl StateExtractor {
    pub open spec fn wf(&self) -> bool {
        self.resources.wf()
    }

    /// The skills icon, anchor of the vital and timer readings.
    pub fn locate_skills_icon(&self, img: &GrayImage) -> (r: Result<Option<BoundingBox>, CoreError>)
        requires
            self.wf(),
            img.wf(),
        ensures
            r == lift_match(
                locate_single_spec(
                    img@,
                    self.resources.skills_icon@,
                    self.resources.anchor_confidence as int,
                ),
            ),
    {
        locate_lifted(img, &self.resources.skills_icon, self.resources.anchor_confidence)
    }

    /// The left arrow, anchor of the action bar.
    pub fn locate_action_bar(&self, img: &GrayImage) -> (r: Result<Option<BoundingBox>, CoreError>)
        requires
            self.wf(),
            img.wf(),
        ensures
            r == lift_match(
                locate_single_spec(
                    img@,
                    self.resources.arrow_left@,
                    self.resources.anchor_confidence as int,
                ),
            ),
    {
        locate_lifted(img, &self.resources.arrow_left, self.resources.anchor_confidence)
    }

    /// A vital statistic, `thousands * 1000 + hundreds`, read at the given
    /// skills-icon anchor; `None` without an anchor. A glyph that is not
    /// recognised reads as 0.
    pub fn get_vital(&self, img: &GrayImage, anchor: Option<BoundingBox>, kind: VitalKind) -> (r:
        Option<i64>)
        requires
            img.wf(),
        ensures
            r == readout_spec(
                img@,
                anchor,
                self.resources.vital_layout_spec(kind),
                self.digit_filter,
                self.resources.digit_table@,
                1000,
            ),
    {
        let layout = self.resources.vital_layout(kind);
        self.readout(img, anchor, &layout, &self.digit_filter, &self.resources.digit_table, 1000)
    }

    /// A timer in minutes, `hours * 60 + minutes`, read at the given
    /// skills-icon anchor; `None` without an anchor. A glyph that is not
    /// recognised reads as 0.
    pub fn get_timer(&self, img: &GrayImage, anchor: Option<BoundingBox>, kind: TimerKind) -> (r:
        Option<i64>)
        requires
            img.wf(),
        ensures
            r == readout_spec(
                img@,
                anchor,
                self.resources.timer_layout_spec(kind),
                self.time_filter,
                self.resources.time_table@,
                60,
            ),
    {
        let layout = self.resources.timer_layout(kind);
        self.readout(img, anchor, &layout, &self.time_filter, &self.resources.time_table, 60)
    }

    fn readout(
        &self,
        img: &GrayImage,
        anchor: Option<BoundingBox>,
        layout: &ReadoutLayout,
        cfg: &FilterConfig,
        table: &LookupTable,
        scale: u32,
    ) -> (r: Option<i64>)
        requires
            img.wf(),
            scale <= 1000,
        ensures
            r == readout_spec(img@, anchor, *layout, *cfg, table@, scale as int),
    {
        match anchor {
            None => None,
            Some(a) => {
                let high = glyph_fingerprint_of(img, &a, &layout.high, cfg);
                let low = glyph_fingerprint_of(img, &a, &layout.low, cfg);
                Some(reading_from_fingerprints(table, high, low, scale))
            },
        }
    }

    /// The cooldown strip of the frame; `None` where an arrow is missing or
    /// the strip leaves the frame.
    pub fn cooldown_strip(&self, img: &GrayImage) -> (r: Result<Option<GrayImage>, CoreError>)
        requires
            self.wf(),
            img.wf(),
        ensures
            match r {
                Ok(Some(s)) => s.wf() && strip_spec(self.resources, img@) == Ok::<
                    Option<ImageView>,
                    CoreError,
                >(Some(s@)),
                Ok(None) => strip_spec(self.resources, img@) == Ok::<Option<ImageView>, CoreError>(
                    None,
                ),
                Err(e) => strip_spec(self.resources, img@) == Err::<Option<ImageView>, CoreError>(
                    e,
                ),
            },
    {
        let conf = self.resources.anchor_confidence;
        let left = match locate_single(img, &self.resources.arrow_left, conf) {
            Ok(v) => v,
            Err(e) => return Err(CoreError::Match(e)),
        };
        let right = match locate_single(img, &self.resources.arrow_right, conf) {
            Ok(v) => v,
            Err(e) => return Err(CoreError::Match(e)),
        };
        match (left, right) {
            (Some(l), Some(r)) => {
                if r.x <= l.x {
                    return Err(CoreError::MalformedGeometry);
                }
                let x = l.x as i128;
                let y = l.y as i128 + self.resources.strip.dy as i128;
                let w = r.x as i128 - l.x as i128;
                let h = self.resources.strip.height;
                if x < 0 || y < 0 || x + w > img.width as i128 || y + h as i128 > img.height as i128 {
                    return Ok(None);
                }
                match crop(img, x as u32, y as u32, w as u32, h) {
                    Some(s) => Ok(Some(s)),
                    None => Ok(None),
                }
            },
            _ => Ok(None),
        }
    }

    /// Whether `fp` is one of the group's cooling-down fingerprints.
    pub fn group_fingerprint_active(&self, group: CooldownGroup, fp: u64) -> (r: bool)
        ensures
            r == self.resources.group_spec(group).active_fingerprints@.contains(fp),
    {
        contains_fingerprint(&self.resources.group(group).active_fingerprints, fp)
    }

    /// Whether the group's indicator in the cooldown strip shows one of the
    /// group's cooling-down fingerprints; false where the strip or the
    /// indicator is not in the frame.
    pub fn cooldown_group_active(&self, img: &GrayImage, group: CooldownGroup) -> (r: Result<
        bool,
        CoreError,
    >)
        requires
            self.wf(),
            img.wf(),
        ensures
            r == group_active_spec(self.resources, img@, group),
    {
        let strip = match self.cooldown_strip(img) {
            Err(e) => return Err(e),
            Ok(None) => return Ok(false),
            Ok(Some(s)) => s,
        };
        Ok(self.group_active_in_strip(&strip, group))
    }

    /// Whether the group's indicator inside the cooldown strip `strip` shows
    /// one of the group's cooling-down fingerprints.
    pub fn group_active_in_strip(&self, strip: &GrayImage, group: CooldownGroup) -> (r: bool)
        requires
            strip.wf(),
        ensures
            r == group_in_strip_spec(self.resources, strip@, group),
    {
        let g = self.resources.group(group);
        match extract_region(strip, g.x, g.y, g.width, g.height) {
            None => false,
            Some(v) => {
                let fp = hash(v.as_slice());
                self.group_fingerprint_active(group, fp)
            },
        }
    }

    /// Whether the named ability is cooling down: its icon is found in the
    /// cooldown strip and the strip shows the active value at the probe row
    /// under the icon's left edge.
    pub fn cooldown_named_active(&self, img: &GrayImage, name: &String) -> (r: Result<
        bool,
        CoreError,
    >)
        requires
            self.wf(),
            img.wf(),
        ensures
            r == named_active_spec(self.resources, img@, name@),
    {
        let template = match self.resources.template_named(name) {
            None => return Err(CoreError::UnknownFeature),
            Some(t) => t,
        };
        proof {
            let i = template_position(self.resources.cooldown_templates@, name@, 0)->Some_0;
            lemma_template_position_in_range(self.resources.cooldown_templates@, name@, 0);
            assert(self.resources.cooldown_templates@[i].image.wf());
        }
        let strip = match self.cooldown_strip(img) {
            Err(e) => return Err(e),
            Ok(None) => return Ok(false),
            Ok(Some(s)) => s,
        };
        match locate_single(&strip, template, self.resources.anchor_confidence) {
            Err(e) => Err(CoreError::Match(e)),
            Ok(None) => Ok(false),
            Ok(Some(b)) => {
                let row = self.resources.strip.probe_row;
                if 0 <= b.x && b.x < strip.width as i64 && row < strip.height {
                    let v = strip.pixel(b.x as u32, row);
                    Ok(v == self.resources.strip.active_value)
                } else {
                    Ok(false)
                }
            },
        }
    }
}

/// Whether the sample at `(x, y)` exists and equals `value`.
fn probe(img: &GrayImage, x: i128, y: i128, value: u8) -> (r: bool)
    requires
        img.wf(),
    ensures
        r == probe_is(img@, x as int, y as int, value),
{
    if x < 0 || y < 0 || x >= img.width as i128 || y >= img.height as i128 {
        false
    } else {
        img.pixel(x as u32, y as u32) == value
    }
}

/// Whether action-bar slot `slot` (counted from 1) holds an item: its probe
/// sample equals `expected`. Slot 0 is never equipped and reads nothing.
pub fn action_bar_slot_equipped(
    img: &GrayImage,
    left_x: i32,
    left_y: i32,
    left_width: i32,
    slot: u32,
    expected: u8,
) -> (r: bool)
    requires
        img.wf(),
    ensures
        r == slot_equipped_spec(
            img@,
            left_x as int,
            left_y as int,
            left_width as int,
            slot as int,
            expected,
        ),
{
    if slot == 0 {
        return false;
    }
    let x = left_x as i128 + left_width as i128 + slot as i128 * 2 + (slot as i128 - 1) * 34;
    probe(img, x, left_y as i128, expected)
}

/// Whether action-bar slot `slot` (counted from 1) is ready: it is unless
/// all five probes along the row under its top edge exist and show the
/// unavailable value. Slot 0 is always available and reads nothing.
pub fn action_bar_slot_available(
    img: &GrayImage,
    left_x: i32,
    left_y: i32,
    left_width: i32,
    slot: u32,
    unavailable: u8,
) -> (r: bool)
    requires
        img.wf(),
    ensures
        r == slot_available_spec(
            img@,
            left_x as int,
            left_y as int,
            left_width as int,
            slot as int,
            unavailable,
        ),
{
    if slot == 0 {
        return true;
    }
    let x0 = left_x as i128 + left_width as i128 + slot as i128 * 2 + (slot as i128 - 1) * 34;
    let y = left_y as i128 + 1;
    if x0 < 0 || y < 0 {
        return true;
    }
    !(probe(img, x0 + 2, y, unavailable) && probe(img, x0 + 4, y, unavailable) && probe(
        img,
        x0 + 6,
        y,
        unavailable,
    ) && probe(img, x0 + 8, y, unavailable) && probe(img, x0 + 10, y, unavailable))
}

/// The glyph has no fingerprint, or one with no table entry.
pub open spec fn unresolved(table: Map<u64, i32>, fp: Option<u64>) -> bool {
    match fp {
        Some(f) => !table.contains_key(f),
        None => true,
    }
}

/// A vital-statistic glyph whose fingerprint has no table entry reads as 0:
/// the reading is still a value, made of the other glyph alone, and is 0
/// when neither glyph is recognised.
pub proof fn lemma_unrecognised_glyph_reads_zero(
    res: RecognitionResources,
    cfg: FilterConfig,
    img: ImageView,
    anchor: BoundingBox,
    kind: VitalKind,
)
    ensures
        ({
            let layout = res.vital_layout_spec(kind);
            let table = res.digit_table@;
            let high = glyph_fingerprint(img, anchor, layout.high, cfg);
            let low = glyph_fingerprint(img, anchor, layout.low, cfg);
            let r = readout_spec(img, Some(anchor), layout, cfg, table, 1000);
            &&& unresolved(table, high) ==> r == Some(fingerprint_reading(table, low) as i64)
            &&& unresolved(table, low) ==> r == Some((fingerprint_reading(table, high) * 1000) as i64)
            &&& unresolved(table, high) && unresolved(table, low) ==> r == Some(0i64)
        }),
{
}

/// Whether every sample of `matrix` that is not one of `ignorable` equals the
/// sample at the same place in `other`; frames of different shapes never
/// satisfy the rules.
pub open spec fn matrix_rules_spec(m: ImageView, o: ImageView, ignorable: Seq<u8>) -> bool {
    &&& m.width == o.width
    &&& m.height == o.height
    &&& forall|k: int|
        0 <= k < m.pixels.len() ==> ignorable.contains(#[trigger] m.pixels[k]) || m.pixels[k]
            == o.pixels[k]
}

fn contains_byte(values: &Vec<u8>, b: u8) -> (r: bool)
    ensures
        r == values@.contains(b),
{
    let mut i: usize = 0;
    while i < values.len()
        invariant
            i <= values@.len(),
            forall|k: int| 0 <= k < i ==> values@[k] != b,
        decreases values@.len() - i,
    {
        if values[i] == b {
            return true;
        }
        i = i + 1;
    }
    false
}

/// Whether `other` agrees with `matrix` wherever `matrix` holds a sample
/// that is not ignorable.
pub fn check_matrix_rules(matrix: &GrayImage, other: &GrayImage, ignorable: &Vec<u8>) -> (r: bool)
    requires
        matrix.wf(),
        other.wf(),
    ensures
        r == matrix_rules_spec(matrix@, other@, ignorable@),
{
    if matrix.width != other.width || matrix.height != other.height {
        return false;
    }
    let n = matrix.pixels.len();
    let mut k: usize = 0;
    while k < n
        invariant
            matrix.wf(),
            other.wf(),
            matrix.width == other.width,
            matrix.height == other.height,
            n == matrix.pixels@.len(),
            n == other.pixels@.len(),
            k <= n,
            forall|j: int|
                0 <= j < k ==> ignorable@.contains(#[trigger] matrix.pixels@[j])
                    || matrix.pixels@[j] == other.pixels@[j],
        decreases n - k,
    {
        let m = matrix.pixels[k];
        if !contains_byte(ignorable, m) && m != other.pixels[k] {
            return false;
        }
        k = k + 1;
    }
    true
}

} // verus!
