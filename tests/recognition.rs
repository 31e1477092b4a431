use skb_core::battle_list::{count_filled_slots, determine_being_attacked};
use skb_core::context::SharedContext;
use skb_core::convert::{bgra_to_rgba, convert_bgra_to_grayscale, convert_to_grayscale};
use skb_core::extractor::{
    action_bar_slot_available, action_bar_slot_equipped, check_matrix_rules,
    glyph_fingerprint_of, reading_from_fingerprints, CoreError, StateExtractor,
};
use skb_core::frame::{extract_region, GrayImage};
use skb_core::hasher::{extract_and_filter, filter_byte, filter_grays_to_black, hash, FilterConfig};
use skb_core::matcher::{BoundingBox, MatchError};
use skb_core::ocr::number_from_text;
use skb_core::resources::{
    CooldownGroup, GroupIndicator, LookupTable, NamedTemplate, ReadoutLayout,
    RecognitionResources, RegionOfInterest, TimerKind, VitalKind,
};

const LEFT: [u8; 9] = [200, 10, 200, 10, 200, 10, 200, 10, 200];
const RIGHT: [u8; 9] = [50, 250, 50, 250, 50, 250, 50, 250, 50];
const ICON: [u8; 16] = [
    90, 30, 90, 30, 30, 90, 30, 90, 90, 30, 90, 30, 30, 90, 30, 90,
];

fn cfg() -> FilterConfig {
    FilterConfig { low: 50, high: 100, special_a: 126, special_b: 192, canonical: 255 }
}

fn put(pixels: &mut Vec<u8>, width: u32, x: u32, y: u32, patch: &[u8], pw: u32) {
    let ph = patch.len() as u32 / pw;
    for r in 0..ph {
        for c in 0..pw {
            pixels[((y + r) * width + x + c) as usize] = patch[(r * pw + c) as usize];
        }
    }
}

fn image(width: u32, height: u32, pixels: Vec<u8>) -> GrayImage {
    GrayImage::from_raw(width, height, pixels).unwrap()
}

fn indicator(x: u32, fps: Vec<u64>) -> GroupIndicator {
    GroupIndicator { x, y: 0, width: 20, height: 20, active_fingerprints: fps }
}

fn extractor_with(
    attack: Vec<u64>,
    digit_table: LookupTable,
    time_table: LookupTable,
) -> StateExtractor {
    let resources = RecognitionResources::with_standard_layout(
        image(3, 3, LEFT.to_vec()),
        image(3, 3, RIGHT.to_vec()),
        image(1, 1, vec![7]),
        vec![NamedTemplate { name: "exori".to_string(), image: image(4, 4, ICON.to_vec()) }],
        indicator(0, attack),
        indicator(22, vec![]),
        indicator(44, vec![]),
        digit_table,
        time_table,
    );
    StateExtractor { resources, digit_filter: cfg(), time_filter: cfg() }
}

// A 100 by 80 frame with the left arrow at (2, 2) and the right arrow at
// (70, 2): the cooldown strip is then the 68 by 22 band at (2, 39).
fn cooldown_frame() -> Vec<u8> {
    let mut pixels = vec![0u8; 100 * 80];
    put(&mut pixels, 100, 2, 2, &LEFT, 3);
    put(&mut pixels, 100, 70, 2, &RIGHT, 3);
    for r in 0..20u32 {
        for c in 0..20u32 {
            pixels[((39 + r) * 100 + 2 + c) as usize] = ((r * 13 + c * 7) % 251) as u8;
        }
    }
    pixels
}

#[test]
fn filter_maps_each_band() {
    let c = cfg();
    let out: Vec<u8> = [0u8, 49, 50, 75, 100, 101, 126, 192, 200, 255]
        .iter()
        .map(|b| filter_byte(&c, *b))
        .collect();
    assert_eq!(out, vec![0, 0, 0, 0, 0, 0, 255, 255, 0, 0]);
}

#[test]
fn extract_and_filter_rejects_rectangles_leaving_the_frame() {
    let img = image(6, 5, vec![126; 30]);
    let c = cfg();
    assert_eq!(extract_and_filter(&img, 4, 0, 3, 1, &c), None);
    assert_eq!(extract_and_filter(&img, 0, 3, 1, 3, &c), None);
    assert_eq!(extract_and_filter(&img, 6, 5, 1, 1, &c), None);
    assert_eq!(extract_and_filter(&img, 0, 0, 7, 5, &c), None);
    assert_eq!(extract_and_filter(&img, 4, 3, 2, 2, &c), Some(vec![255; 4]));
    assert_eq!(extract_and_filter(&img, 6, 5, 0, 0, &c), Some(vec![]));
}

#[test]
fn hash_is_repeatable_and_order_sensitive() {
    let a = vec![1u8, 2, 3, 4, 5];
    let b = vec![1u8, 2, 3, 4, 5];
    assert_eq!(hash(&a), hash(&b));
    assert_eq!(hash(&a), hash(&a));
    assert_ne!(hash(&a), hash(&[5u8, 4, 3, 2, 1]));
    assert_eq!(hash(&a), farmhash::hash64(&a));
}

#[test]
fn gray_band_drops_to_black() {
    let mut v = vec![49u8, 50, 75, 100, 101, 0, 255];
    filter_grays_to_black(&mut v);
    assert_eq!(v, vec![49, 0, 0, 0, 101, 0, 255]);
}

#[test]
fn unresolved_vital_glyphs_read_zero() {
    let ex = extractor_with(vec![], LookupTable::new(), LookupTable::new());
    let img = image(200, 160, vec![126; 200 * 160]);
    let anchor = Some(BoundingBox { x: 0, y: 0, width: 1, height: 1 });
    assert_eq!(ex.get_vital(&img, anchor, VitalKind::Hp), Some(0));
    assert_eq!(ex.get_vital(&img, anchor, VitalKind::Speed), Some(0));
    assert_eq!(ex.get_vital(&img, None, VitalKind::Hp), None);
}

#[test]
fn vital_reading_combines_thousands_and_hundreds() {
    let mut pixels = vec![0u8; 200 * 120];
    // Thousands glyph of hp at (100, 90), hundreds at (128, 90).
    pixels[(90 * 200 + 101) as usize] = 126;
    pixels[(92 * 200 + 130) as usize] = 192;
    let img = image(200, 120, pixels);
    let anchor = BoundingBox { x: 0, y: 0, width: 1, height: 1 };
    let layout = ReadoutLayout::standard_vital(VitalKind::Hp);
    let c = cfg();
    let high = glyph_fingerprint_of(&img, &anchor, &layout.high, &c).unwrap();
    let low = glyph_fingerprint_of(&img, &anchor, &layout.low, &c).unwrap();
    assert_ne!(high, low);
    let mut digits = LookupTable::new();
    digits.insert(high, 2);
    digits.insert(low, 345);
    let ex = extractor_with(vec![], digits, LookupTable::new());
    assert_eq!(ex.get_vital(&img, Some(anchor), VitalKind::Hp), Some(2345));
    // Mana's glyphs lie in other rows, which are blank and unresolved.
    assert_eq!(ex.get_vital(&img, Some(anchor), VitalKind::Mana), Some(0));
}

#[test]
fn food_of_one_hour_thirty_reads_ninety() {
    let mut pixels = vec![0u8; 160 * 170];
    // Hours glyph of food at (116, 160), minutes at (136, 160).
    pixels[(160 * 160 + 116) as usize] = 126;
    pixels[(161 * 160 + 137) as usize] = 192;
    let img = image(160, 170, pixels);
    let anchor = BoundingBox { x: 0, y: 0, width: 1, height: 1 };
    let layout = ReadoutLayout::standard_timer(TimerKind::Food);
    let c = cfg();
    let hours = glyph_fingerprint_of(&img, &anchor, &layout.high, &c).unwrap();
    let minutes = glyph_fingerprint_of(&img, &anchor, &layout.low, &c).unwrap();
    let mut times = LookupTable::new();
    times.insert(hours, 1);
    times.insert(minutes, 30);
    assert_eq!(reading_from_fingerprints(&times, Some(hours), Some(minutes), 60), 90);
    let ex = extractor_with(vec![], LookupTable::new(), times);
    assert_eq!(ex.get_timer(&img, Some(anchor), TimerKind::Food), Some(90));
    assert_eq!(ex.get_timer(&img, None, TimerKind::Food), None);
}

#[test]
fn readings_from_fingerprints_default_missing_parts_to_zero() {
    let mut t = LookupTable::new();
    t.insert(11, 7);
    t.insert(12, 45);
    assert_eq!(reading_from_fingerprints(&t, Some(11), Some(12), 1000), 7045);
    assert_eq!(reading_from_fingerprints(&t, Some(99), Some(12), 1000), 45);
    assert_eq!(reading_from_fingerprints(&t, Some(11), None, 60), 420);
    assert_eq!(reading_from_fingerprints(&t, None, None, 60), 0);
    assert_eq!(t.get(11), Some(7));
    assert_eq!(t.get(13), None);
    assert_eq!(t.resolve(13), 0);
}

#[test]
fn glyph_outside_the_frame_has_no_fingerprint() {
    let img = image(10, 10, vec![0; 100]);
    let c = cfg();
    let roi = RegionOfInterest { dx: 5, dy: 0, width: 6, height: 2 };
    let at = BoundingBox { x: 0, y: 0, width: 1, height: 1 };
    assert_eq!(glyph_fingerprint_of(&img, &at, &roi, &c), None);
    let left = BoundingBox { x: -1, y: 0, width: 1, height: 1 };
    let roi2 = RegionOfInterest { dx: 0, dy: 0, width: 2, height: 2 };
    assert_eq!(glyph_fingerprint_of(&img, &left, &roi2, &c), None);
    assert!(glyph_fingerprint_of(&img, &at, &roi2, &c).is_some());
}

#[test]
fn attack_group_active_when_fingerprint_listed() {
    let img = image(100, 80, cooldown_frame());
    let fp = hash(&extract_region(&img, 2, 39, 20, 20).unwrap());
    let active = extractor_with(vec![fp], LookupTable::new(), LookupTable::new());
    assert_eq!(active.cooldown_group_active(&img, CooldownGroup::Attack), Ok(true));
    assert!(active.group_fingerprint_active(CooldownGroup::Attack, fp));
    assert!(!active.group_fingerprint_active(CooldownGroup::Healing, fp));
    let idle = extractor_with(vec![fp ^ 1], LookupTable::new(), LookupTable::new());
    assert_eq!(idle.cooldown_group_active(&img, CooldownGroup::Attack), Ok(false));
    assert!(!idle.group_fingerprint_active(CooldownGroup::Attack, fp));
}

#[test]
fn cooldown_strip_spans_the_arrows() {
    let img = image(100, 80, cooldown_frame());
    let ex = extractor_with(vec![], LookupTable::new(), LookupTable::new());
    let strip = ex.cooldown_strip(&img).unwrap().unwrap();
    assert_eq!((strip.width, strip.height), (68, 22));
    assert_eq!(strip.pixel(0, 0), img.pixel(2, 39));
    assert_eq!(strip.pixel(19, 19), img.pixel(21, 58));
}

#[test]
fn missing_arrow_means_inactive() {
    let mut pixels = cooldown_frame();
    put(&mut pixels, 100, 70, 2, &[0; 9], 3);
    let img = image(100, 80, pixels);
    let ex = extractor_with(vec![], LookupTable::new(), LookupTable::new());
    assert!(ex.cooldown_strip(&img).unwrap().is_none());
    assert_eq!(ex.cooldown_group_active(&img, CooldownGroup::Support), Ok(false));
}

#[test]
fn strip_leaving_the_frame_means_inactive() {
    let mut pixels = vec![0u8; 100 * 50];
    put(&mut pixels, 100, 2, 2, &LEFT, 3);
    put(&mut pixels, 100, 70, 2, &RIGHT, 3);
    let img = image(100, 50, pixels);
    let ex = extractor_with(vec![], LookupTable::new(), LookupTable::new());
    assert!(ex.cooldown_strip(&img).unwrap().is_none());
    assert_eq!(ex.cooldown_group_active(&img, CooldownGroup::Attack), Ok(false));
}

#[test]
fn right_arrow_left_of_left_arrow_is_malformed() {
    let mut pixels = vec![0u8; 100 * 80];
    put(&mut pixels, 100, 70, 2, &LEFT, 3);
    put(&mut pixels, 100, 2, 2, &RIGHT, 3);
    let img = image(100, 80, pixels);
    let ex = extractor_with(vec![], LookupTable::new(), LookupTable::new());
    assert_eq!(
        ex.cooldown_group_active(&img, CooldownGroup::Attack),
        Err(CoreError::MalformedGeometry)
    );
}

#[test]
fn frame_smaller_than_arrow_is_a_match_error() {
    let img = image(2, 2, vec![0; 4]);
    let ex = extractor_with(vec![], LookupTable::new(), LookupTable::new());
    assert_eq!(
        ex.cooldown_group_active(&img, CooldownGroup::Attack),
        Err(CoreError::Match(MatchError::InvalidDimensions))
    );
}

#[test]
fn named_cooldown_reads_probe_under_icon() {
    let mut pixels = cooldown_frame();
    // The icon sits at strip column 30, strip row 1; strip row 20 under its
    // left edge is frame row 59.
    put(&mut pixels, 100, 32, 40, &ICON, 4);
    pixels[(59 * 100 + 32) as usize] = 255;
    let img = image(100, 80, pixels.clone());
    let ex = extractor_with(vec![], LookupTable::new(), LookupTable::new());
    assert_eq!(ex.cooldown_named_active(&img, &"exori".to_string()), Ok(true));
    pixels[(59 * 100 + 32) as usize] = 254;
    let dim = image(100, 80, pixels);
    assert_eq!(ex.cooldown_named_active(&dim, &"exori".to_string()), Ok(false));
    assert_eq!(
        ex.cooldown_named_active(&img, &"exura".to_string()),
        Err(CoreError::UnknownFeature)
    );
}

#[test]
fn uninitialised_context_refuses_calls() {
    let ctx = SharedContext::new();
    assert!(!ctx.is_initialized());
    let img = image(4, 4, vec![0; 16]);
    let anchor = Some(BoundingBox { x: 0, y: 0, width: 1, height: 1 });
    assert_eq!(ctx.get_vital(&img, anchor, VitalKind::Hp), Err(CoreError::NotInitialized));
    assert_eq!(ctx.get_timer(&img, anchor, TimerKind::Stamina), Err(CoreError::NotInitialized));
    assert_eq!(
        ctx.cooldown_group_active(&img, CooldownGroup::Healing),
        Err(CoreError::NotInitialized)
    );
    assert_eq!(ctx.locate_skills_icon(&img), Err(CoreError::NotInitialized));
}

#[test]
fn initialised_context_reads_through_its_engine() {
    let mut ctx = SharedContext::new();
    ctx.initialize(extractor_with(vec![], LookupTable::new(), LookupTable::new()));
    assert!(ctx.is_initialized());
    let mut pixels = vec![0u8; 30 * 20];
    put(&mut pixels, 30, 11, 7, &LEFT, 3);
    let img = image(30, 20, pixels);
    assert_eq!(
        ctx.locate_action_bar(&img),
        Ok(Some(BoundingBox { x: 11, y: 7, width: 3, height: 3 }))
    );
    assert_eq!(ctx.get_vital(&img, None, VitalKind::Capacity), Ok(None));
}

#[test]
fn slot_zero_is_never_equipped_and_always_available() {
    for fill in [0u8, 255] {
        let img = image(60, 10, vec![fill; 600]);
        assert!(!action_bar_slot_equipped(&img, 0, 0, 10, 0, fill));
        assert!(action_bar_slot_available(&img, 0, 0, 10, 0, fill));
    }
}

#[test]
fn slot_probes_follow_the_slot_pitch() {
    // Slot 2 after a 10-wide arrow at x 0: 10 + 4 + 34 = 48.
    let mut pixels = vec![0u8; 100 * 10];
    pixels[(3 * 100 + 48) as usize] = 77;
    for k in 1..=5u32 {
        pixels[(4 * 100 + 48 + 2 * k) as usize] = 9;
    }
    let img = image(100, 10, pixels);
    assert!(action_bar_slot_equipped(&img, 0, 3, 10, 2, 77));
    assert!(!action_bar_slot_equipped(&img, 0, 3, 10, 1, 77));
    assert!(!action_bar_slot_available(&img, 0, 3, 10, 2, 9));
    assert!(action_bar_slot_available(&img, 0, 3, 10, 2, 8));
    assert!(action_bar_slot_available(&img, 0, 3, 10, 1, 9));
    // Probes beyond the frame make the slot available.
    assert!(action_bar_slot_available(&img, 60, 3, 10, 2, 0));
    assert!(!action_bar_slot_equipped(&img, 60, 3, 10, 2, 0));
}

#[test]
fn matrix_rules_ignore_listed_values() {
    let m = image(3, 1, vec![1, 0, 3]);
    let same = image(3, 1, vec![1, 9, 3]);
    let other = image(3, 1, vec![1, 9, 4]);
    let wide = image(1, 3, vec![1, 0, 3]);
    assert!(check_matrix_rules(&m, &same, &vec![0]));
    assert!(!check_matrix_rules(&m, &same, &vec![]));
    assert!(!check_matrix_rules(&m, &other, &vec![0]));
    assert!(!check_matrix_rules(&m, &wide, &vec![0]));
}

#[test]
fn number_from_text_keeps_digits() {
    assert_eq!(number_from_text("HP: 1,234\n"), Some(1234));
    assert_eq!(number_from_text("007"), Some(7));
    assert_eq!(number_from_text("no digits"), None);
    assert_eq!(number_from_text(""), None);
    assert_eq!(number_from_text("2147483647"), Some(2147483647));
    assert_eq!(number_from_text("2147483648"), None);
    assert_eq!(number_from_text("99999999999"), None);
}

#[test]
fn grayscale_uses_srgb_weights() {
    let rgb = vec![255, 0, 0, 0, 255, 0, 0, 0, 255, 255, 255, 255];
    let g = convert_to_grayscale(4, 1, 3, rgb).unwrap();
    assert_eq!(g.pixels, vec![54, 182, 18, 255]);
    let rgba = vec![255, 0, 0, 9, 0, 0, 255, 9];
    assert_eq!(convert_to_grayscale(2, 1, 4, rgba).unwrap().pixels, vec![54, 18]);
    assert_eq!(convert_to_grayscale(2, 1, 1, vec![3, 4]).unwrap().pixels, vec![3, 4]);
    assert!(convert_to_grayscale(2, 1, 2, vec![0; 4]).is_none());
    assert!(convert_to_grayscale(2, 1, 3, vec![0; 5]).is_none());
}

#[test]
fn bgra_capture_converts_to_gray() {
    let mut px = vec![1, 2, 3, 4, 5, 6, 7, 8];
    bgra_to_rgba(&mut px);
    assert_eq!(px, vec![3, 2, 1, 4, 7, 6, 5, 8]);
    let bgra = vec![0, 0, 255, 255, 255, 0, 0, 255];
    let g = convert_bgra_to_grayscale(2, 1, bgra).unwrap();
    assert_eq!((g.width, g.height, g.pixels), (2, 1, vec![54, 18]));
    assert!(convert_bgra_to_grayscale(2, 1, vec![0; 7]).is_none());
}

#[test]
fn battle_list_placeholders() {
    let img = image(1, 1, vec![0]);
    assert_eq!(count_filled_slots(&img), 5);
    assert_eq!(determine_being_attacked(&img, 3), Some(vec![true, false, false]));
    assert_eq!(determine_being_attacked(&img, 0), Some(vec![]));
    assert_eq!(determine_being_attacked(&img, -1), None);
}
