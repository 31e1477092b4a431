//! Turning colour captures into grayscale frames.

use vstd::prelude::*;
use crate::frame::GrayImage;

verus! {

/// Luminance of a colour sample, with the sRGB weights of the `image` crate.
pub open spec fn luma(r: u8, g: u8, b: u8) -> u8 {
    ((2126 * r + 7152 * g + 722 * b) / 10000) as u8
}

/// `out` is `raw` with the first and third sample of every 4-sample pixel
/// exchanged.
pub open spec fn is_red_blue_swap(out: Seq<u8>, raw: Seq<u8>) -> bool {
    &&& out.len() == raw.len()
    &&& forall|p: int|
        0 <= p < raw.len() / 4 ==> {
            &&& #[trigger] out[4 * p] == raw[4 * p + 2]
            &&& out[4 * p + 1] == raw[4 * p + 1]
            &&& out[4 * p + 2] == raw[4 * p]
            &&& out[4 * p + 3] == raw[4 * p + 3]
        }
}

/// Relies on `image`'s `ConvertBuffer::convert` from an `RgbImage` to a
/// `GrayImage`: pixels keep their order and each becomes
/// `(2126 r + 7152 g + 722 b) / 10000` (its `rgb_to_luma`).
#[verifier::external_body]
fn rgb_to_gray(width: u32, height: u32, data: Vec<u8>) -> (r: Vec<u8>)
    requires
        data@.len() == 3 * (width * height),
    ensures
        r@.len() == width * height,
        forall|p: int|
            0 <= p < width * height ==> #[trigger] r@[p] == luma(
                data@[3 * p],
                data@[3 * p + 1],
                data@[3 * p + 2],
            ),
{
    let rgb: ::image::RgbImage = ::image::ImageBuffer::from_raw(width, height, data).unwrap();
    let gray: ::image::GrayImage = ::image::buffer::ConvertBuffer::convert(&rgb);
    gray.into_raw()
}

/// Relies on `image`'s `ConvertBuffer::convert` from an `RgbaImage` to a
/// `GrayImage`: pixels keep their order, alpha is dropped and each becomes
/// `(2126 r + 7152 g + 722 b) / 10000` (its `rgb_to_luma`).
#[verifier::external_body]
fn rgba_to_gray(width: u32, height: u32, data: Vec<u8>) -> (r: Vec<u8>)
    requires
        data@.len() == 4 * (width * height),
    ensures
        r@.len() == width * height,
        forall|p: int|
            0 <= p < width * height ==> #[trigger] r@[p] == luma(
                data@[4 * p],
                data@[4 * p + 1],
                data@[4 * p + 2],
            ),
{
    let rgba: ::image::RgbaImage = ::image::ImageBuffer::from_raw(width, height, data).unwrap();
    let gray: ::image::GrayImage = ::image::buffer::ConvertBuffer::convert(&rgba);
    gray.into_raw()
}

/// Exchanges blue and red in every 4-sample pixel, turning BGRA into RGBA.
pub fn bgra_to_rgba(data: &mut Vec<u8>)
    requires
        old(data)@.len() % 4 == 0,
    ensures
        is_red_blue_swap(final(data)@, old(data)@),
{
    let ghost raw = data@;
    let len = data.len();
    let n = len / 4;
    let mut p: usize = 0;
    while p < n
        invariant
            n == raw.len() / 4,
            len == raw.len(),
            raw.len() % 4 == 0,
            data@.len() == raw.len(),
            p <= n,
            forall|q: int|
                0 <= q < p ==> {
                    &&& #[trigger] data@[4 * q] == raw[4 * q + 2]
                    &&& data@[4 * q + 1] == raw[4 * q + 1]
                    &&& data@[4 * q + 2] == raw[4 * q]
                    &&& data@[4 * q + 3] == raw[4 * q + 3]
                },
            forall|i: int| 4 * p <= i < raw.len() ==> #[trigger] data@[i] == raw[i],
        decreases n - p,
    {
        let i = 4 * p;
        let b = data[i];
        let r = data[i + 2];
        data.set(i, r);
        data.set(i + 2, b);
        p = p + 1;
    }
}

/// A grayscale frame from `channels`-sample pixels: one sample is taken as
/// it is, three (RGB) or four (RGBA) are reduced to their luminance. `None`
/// for another channel count or where `data` does not hold exactly
/// `width * height` pixels.
pub fn convert_to_grayscale(width: u32, height: u32, channels: u32, data: Vec<u8>) -> (r: Option<
    GrayImage,
>)
    ensures
        r is Some <==> ((channels == 1 || channels == 3 || channels == 4) && data@.len() == channels
            * (width * height)),
        r matches Some(img) ==> {
            &&& img.wf()
            &&& img.width == width
            &&& img.height == height
            &&& channels == 1 ==> img.pixels@ == data@
            &&& channels != 1 ==> forall|p: int|
                0 <= p < width * height ==> #[trigger] img.pixels@[p] == luma(
                    data@[channels * p],
                    data@[channels * p + 1],
                    data@[channels * p + 2],
                )
        },
{
    if channels != 1 && channels != 3 && channels != 4 {
        return None;
    }
    proof {
        assert(channels as int * (width as int * height as int) <= 4 * (0xffff_ffff * 0xffff_ffff))
            by (nonlinear_arith)
            requires
                channels <= 4,
                width <= 0xffff_ffff,
                height <= 0xffff_ffff,
        ;
        assert(width as int * height as int <= 0xffff_ffff * 0xffff_ffff) by (nonlinear_arith)
            requires
                width <= 0xffff_ffff,
                height <= 0xffff_ffff,
        ;
    }
    let n = width as u128 * height as u128;
    if data.len() as u128 != channels as u128 * n {
        return None;
    }
    let pixels = if channels == 1 {
        data
    } else if channels == 3 {
        rgb_to_gray(width, height, data)
    } else {
        rgba_to_gray(width, height, data)
    };
    Some(GrayImage { width, height, pixels })
}

/// A grayscale frame from BGRA pixels (the order screen captures use);
/// `None` where `data` does not hold exactly `width * height` pixels.
pub fn convert_bgra_to_grayscale(width: u32, height: u32, data: Vec<u8>) -> (r: Option<GrayImage>)
    ensures
        r is Some <==> data@.len() == 4 * (width * height),
        r matches Some(img) ==> {
            &&& img.wf()
            &&& img.width == width
            &&& img.height == height
            &&& forall|p: int|
                0 <= p < width * height ==> #[trigger] img.pixels@[p] == luma(
                    data@[4 * p + 2],
                    data@[4 * p + 1],
                    data@[4 * p],
                )
        },
{
    proof {
        assert(4 * (width as int * height as int) <= 4 * (0xffff_ffff * 0xffff_ffff))
            by (nonlinear_arith)
            requires
                width <= 0xffff_ffff,
                height <= 0xffff_ffff,
        ;
    }
    if data.len() as u128 != 4 * (width as u128 * height as u128) {
        return None;
    }
    let ghost raw = data@;
    let mut rgba = data;
    bgra_to_rgba(&mut rgba);
    let pixels = rgba_to_gray(width, height, rgba);
    proof {
        assert forall|p: int| 0 <= p < width * height implies #[trigger] pixels@[p] == luma(
            raw[4 * p + 2],
            raw[4 * p + 1],
            raw[4 * p],
        ) by {
            assert(0 <= p < raw.len() / 4);
        }
    }
    Some(GrayImage { width, height, pixels })
}

} // verus!
