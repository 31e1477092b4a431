use skb_core::frame::{crop, crop_interleaved, extract_region, GrayImage};
use skb_core::matcher::{locate_all, locate_single, BoundingBox, MatchError};

fn frame(width: u32, height: u32, fill: u8) -> Vec<u8> {
    vec![fill; (width * height) as usize]
}

fn put(pixels: &mut Vec<u8>, width: u32, x: u32, y: u32, patch: &[u8], pw: u32) {
    let ph = patch.len() as u32 / pw;
    for r in 0..ph {
        for c in 0..pw {
            pixels[((y + r) * width + x + c) as usize] = patch[(r * pw + c) as usize];
        }
    }
}

fn image(width: u32, height: u32, pixels: Vec<u8>) -> GrayImage {
    GrayImage::from_raw(width, height, pixels).unwrap()
}

const MARK: [u8; 9] = [200, 10, 200, 10, 200, 10, 200, 10, 200];

#[test]
fn identical_same_size_images_match_at_origin() {
    let pixels: Vec<u8> = (0..20u8).map(|v| v * 7).collect();
    let h = image(5, 4, pixels.clone());
    let n = image(5, 4, pixels);
    assert_eq!(
        locate_single(&h, &n, 1000),
        Ok(Some(BoundingBox { x: 0, y: 0, width: 5, height: 4 }))
    );
}

#[test]
fn single_match_found_where_needle_was_placed() {
    let mut pixels = frame(12, 9, 0);
    put(&mut pixels, 12, 6, 4, &MARK, 3);
    let h = image(12, 9, pixels);
    let n = image(3, 3, MARK.to_vec());
    assert_eq!(
        locate_single(&h, &n, 900),
        Ok(Some(BoundingBox { x: 6, y: 4, width: 3, height: 3 }))
    );
}

#[test]
fn lower_confidence_keeps_the_same_match() {
    let mut pixels = frame(10, 10, 30);
    let near: Vec<u8> = MARK.iter().map(|v| v.saturating_sub(20)).collect();
    put(&mut pixels, 10, 2, 5, &near, 3);
    let h = image(10, 10, pixels);
    let n = image(3, 3, MARK.to_vec());
    let high = locate_single(&h, &n, 900).unwrap();
    assert_eq!(high, Some(BoundingBox { x: 2, y: 5, width: 3, height: 3 }));
    for c in [0u32, 100, 500, 899] {
        assert_eq!(locate_single(&h, &n, c).unwrap(), high);
    }
    assert_eq!(locate_single(&h, &n, 1000).unwrap(), None);
}

#[test]
fn similarity_threshold_is_exact() {
    // Needle of 4 samples at 100, haystack of 4 samples at 0: difference sum
    // 400 out of 1020, similarity 620/1020, about 0.6078.
    let h = image(2, 2, vec![0; 4]);
    let n = image(2, 2, vec![100; 4]);
    assert_eq!(
        locate_single(&h, &n, 607).unwrap(),
        Some(BoundingBox { x: 0, y: 0, width: 2, height: 2 })
    );
    assert_eq!(locate_single(&h, &n, 608).unwrap(), None);
}

#[test]
fn ties_go_to_the_first_position_in_raster_order() {
    let h = image(6, 4, frame(6, 4, 9));
    let n = image(2, 2, vec![9; 4]);
    assert_eq!(
        locate_single(&h, &n, 1000).unwrap(),
        Some(BoundingBox { x: 0, y: 0, width: 2, height: 2 })
    );
}

#[test]
fn empty_image_is_an_error() {
    let h = image(0, 0, vec![]);
    let n = image(1, 1, vec![0]);
    assert_eq!(locate_single(&h, &n, 500), Err(MatchError::EmptyImage));
    assert_eq!(locate_all(&n, &h, 500, 0), Err(MatchError::EmptyImage));
}

#[test]
fn needle_larger_than_haystack_is_an_error() {
    let h = image(3, 3, frame(3, 3, 0));
    let n = image(4, 2, frame(4, 2, 0));
    assert_eq!(locate_single(&h, &n, 500), Err(MatchError::InvalidDimensions));
    assert_eq!(locate_all(&h, &n, 500, 300), Err(MatchError::InvalidDimensions));
}

#[test]
fn confidence_above_one_is_an_error() {
    let h = image(3, 3, frame(3, 3, 0));
    let n = image(2, 2, frame(2, 2, 0));
    assert_eq!(locate_single(&h, &n, 1001), Err(MatchError::InvalidConfidence));
    assert_eq!(locate_all(&h, &n, 1001, 300), Err(MatchError::InvalidConfidence));
}

#[test]
fn same_size_needle_gives_at_most_one_candidate() {
    let pixels: Vec<u8> = (0..12u8).collect();
    let h = image(4, 3, pixels.clone());
    let n = image(4, 3, pixels);
    assert_eq!(
        locate_all(&h, &n, 0, 1000).unwrap(),
        vec![BoundingBox { x: 0, y: 0, width: 4, height: 3 }]
    );
}

#[test]
fn all_matches_come_most_similar_first() {
    let mut pixels = frame(20, 8, 0);
    let near: Vec<u8> = MARK.iter().map(|v| v.saturating_sub(30)).collect();
    put(&mut pixels, 20, 1, 1, &near, 3);
    put(&mut pixels, 20, 12, 4, &MARK, 3);
    let h = image(20, 8, pixels);
    let n = image(3, 3, MARK.to_vec());
    let found = locate_all(&h, &n, 900, 0).unwrap();
    assert_eq!(
        found,
        vec![
            BoundingBox { x: 12, y: 4, width: 3, height: 3 },
            BoundingBox { x: 1, y: 1, width: 3, height: 3 },
        ]
    );
}

fn overlap(a: &BoundingBox, b: &BoundingBox) -> i64 {
    let ox = (a.x + a.width as i64).min(b.x + b.width as i64) - a.x.max(b.x);
    let oy = (a.y + a.height as i64).min(b.y + b.height as i64) - a.y.max(b.y);
    ox.max(0) * oy.max(0)
}

#[test]
fn zero_overlap_bound_keeps_disjoint_boxes_only() {
    let h = image(9, 9, frame(9, 9, 40));
    let n = image(3, 3, vec![40; 9]);
    let found = locate_all(&h, &n, 1000, 0).unwrap();
    assert!(found.len() >= 4);
    assert_eq!(found[0], BoundingBox { x: 0, y: 0, width: 3, height: 3 });
    for i in 0..found.len() {
        for j in (i + 1)..found.len() {
            assert_eq!(overlap(&found[i], &found[j]), 0);
        }
    }
    assert_eq!(found.len(), 9);
}

#[test]
fn full_overlap_bound_keeps_every_candidate() {
    let h = image(4, 4, frame(4, 4, 1));
    let n = image(2, 2, vec![1; 4]);
    assert_eq!(locate_all(&h, &n, 1000, 1000).unwrap().len(), 9);
}

#[test]
fn crop_and_extract_read_the_rectangle() {
    let pixels: Vec<u8> = (0..20u8).collect();
    let img = image(5, 4, pixels);
    assert_eq!(extract_region(&img, 1, 2, 3, 2), Some(vec![11, 12, 13, 16, 17, 18]));
    assert_eq!(extract_region(&img, 3, 0, 3, 1), None);
    let c = crop(&img, 4, 3, 1, 1).unwrap();
    assert_eq!((c.width, c.height, c.pixels), (1, 1, vec![19]));
    assert!(crop(&img, 0, 4, 1, 1).is_none());
}

#[test]
fn from_raw_checks_the_sample_count() {
    assert!(GrayImage::from_raw(3, 2, vec![0; 6]).is_some());
    assert!(GrayImage::from_raw(3, 2, vec![0; 5]).is_none());
    let img = image(3, 2, vec![1, 2, 3, 4, 5, 6]);
    assert_eq!(img.pixel(2, 1), 6);
    assert_eq!((img.width(), img.height()), (3, 2));
}

#[test]
fn interleaved_crop_keeps_whole_pixels() {
    // A 3 by 2 frame of 2-sample pixels; pixel (c, r) holds (10r + c, 100 + c).
    let data: Vec<u8> = vec![0, 100, 1, 101, 2, 102, 10, 100, 11, 101, 12, 102];
    assert_eq!(
        crop_interleaved(3, 2, 2, data.clone(), 1, 0, 2, 2),
        Some(vec![1, 101, 2, 102, 11, 101, 12, 102])
    );
    assert_eq!(crop_interleaved(3, 2, 2, data.clone(), 2, 0, 2, 1), None);
    assert_eq!(crop_interleaved(3, 2, 2, data.clone(), 0, 1, 1, 2), None);
    assert_eq!(crop_interleaved(3, 2, 3, data, 0, 0, 1, 1), None);
}
