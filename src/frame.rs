//! Grayscale frames and rectangular regions of them.

use vstd::prelude::*;

verus! {

/// What a grayscale frame is, mathematically: a width, a height and the
/// row-major sequence of its luminance samples.
pub struct ImageView {
    pub width: int,
    pub height: int,
    pub pixels: Seq<u8>,
}

impl ImageView {
    pub open spec fn wf(self) -> bool {
        &&& self.width >= 0
        &&& self.height >= 0
        &&& self.pixels.len() == self.width * self.height
    }

    /// The sample in column `x` of row `y`.
    pub open spec fn px(self, x: int, y: int) -> u8 {
        self.pixels[y * self.width + x]
    }

    /// The rectangle with top-left corner `(x, y)` and size `w` by `h` lies
    /// inside the frame.
    pub open spec fn fits(self, x: int, y: int, w: int, h: int) -> bool {
        &&& 0 <= x
        &&& 0 <= y
        &&& 0 <= w
        &&& 0 <= h
        &&& x + w <= self.width
        &&& y + h <= self.height
    }
}

/// The `w` samples of row `y` that start at column `x`.
pub open spec fn row_run(img: ImageView, x: int, y: int, w: int) -> Seq<u8> {
    img.pixels.subrange(y * img.width + x, y * img.width + x + w)
}

/// The samples of the rectangle `(x, y, w, h)`, row after row.
pub open spec fn region(img: ImageView, x: int, y: int, w: int, h: int) -> Seq<u8>
    decreases h,
{
    if h <= 0 {
        Seq::empty()
    } else {
        region(img, x, y, w, h - 1) + row_run(img, x, y + h - 1, w)
    }
}

/// The frame that holds exactly the rectangle `(x, y, w, h)` of `img`.
pub open spec fn crop_view(img: ImageView, x: int, y: int, w: int, h: int) -> ImageView {
    ImageView { width: w, height: h, pixels: region(img, x, y, w, h) }
}

/// A width by height buffer of single-byte luminance samples, row-major.
#[derive(Debug)]
pub struct GrayImage {
    pub width: u32,
    pub height: u32,
    pub pixels: Vec<u8>,
}

impl View for GrayImage {
    type V = ImageView;

    open spec fn view(&self) -> ImageView {
        ImageView { width: self.width as int, height: self.height as int, pixels: self.pixels@ }
    }
}

/// A run of `n` samples that starts at column `x` of row `y` lies inside a
/// `w` by `h` buffer.
pub proof fn lemma_run_in_bounds(x: int, y: int, n: int, w: int, h: int)
    requires
        0 <= x,
        0 <= n,
        x + n <= w,
        0 <= y < h,
    ensures
        0 <= y * w + x,
        y * w + x + n <= w * h,
        w * h == h * w,
{
    assert(0 <= y * w) by (nonlinear_arith)
        requires
            0 <= y,
            0 <= w,
    ;
    assert(y * w + w <= w * h) by (nonlinear_arith)
        requires
            y + 1 <= h,
            0 <= w,
    ;
    assert(w * h == h * w) by (nonlinear_arith);
}

pub proof fn lemma_region_len(img: ImageView, x: int, y: int, w: int, h: int)
    requires
        img.wf(),
        img.fits(x, y, w, h),
    ensures
        region(img, x, y, w, h).len() == w * h,
    decreases h,
{
    if h > 0 {
        lemma_region_len(img, x, y, w, h - 1);
        lemma_run_in_bounds(x, y + h - 1, w, img.width, img.height);
        assert(w * (h - 1) + w == w * h) by (nonlinear_arith);
    } else {
        assert(w * h == 0) by (nonlinear_arith)
            requires
                h == 0,
        ;
    }
}

impl GrayImage {
    pub open spec fn wf(&self) -> bool {
        self@.wf()
    }

    /// A frame from its size and its row-major samples; `None` where the
    /// number of samples is not `width * height`.
    pub fn from_raw(width: u32, height: u32, pixels: Vec<u8>) -> (r: Option<GrayImage>)
        ensures
            r is Some <==> pixels@.len() == width as int * height as int,
            r matches Some(img) ==> img.width == width && img.height == height && img.pixels@
                == pixels@,
            r matches Some(img) ==> img.wf(),
    {
        let len = pixels.len();
        proof {
            assert(width as int * height as int <= 0xffff_ffff * 0xffff_ffff) by (nonlinear_arith)
                requires
                    width as int <= 0xffff_ffff,
                    height as int <= 0xffff_ffff,
                    width as int >= 0,
                    height as int >= 0,
            ;
        }
        if (width as u64) * (height as u64) != len as u64 {
            None
        } else {
            Some(GrayImage { width, height, pixels })
        }
    }

    pub fn width(&self) -> (r: u32)
        ensures
            r == self.width,
    {
        self.width
    }

    pub fn height(&self) -> (r: u32)
        ensures
            r == self.height,
    {
        self.height
    }

    /// Position of the sample `(x, y)` in the buffer.
    pub fn index_of(&self, x: u32, y: u32) -> (r: usize)
        requires
            self.wf(),
            x < self.width,
            y < self.height,
        ensures
            r == y * self.width + x,
            r < self.pixels@.len(),
    {
        let len = self.pixels.len();
        proof {
            lemma_run_in_bounds(x as int, y as int, 1, self.width as int, self.height as int);
        }
        (y as usize) * (self.width as usize) + (x as usize)
    }

    /// The sample in column `x` of row `y`.
    pub fn pixel(&self, x: u32, y: u32) -> (r: u8)
        requires
            self.wf(),
            x < self.width,
            y < self.height,
        ensures
            r == self@.px(x as int, y as int),
    {
        let i = self.index_of(x, y);
        self.pixels[i]
    }
}

/// The samples of the rectangle `(x, y, w, h)`, row after row; `None` where
/// the rectangle leaves the frame. Nothing is clamped and nothing outside the
/// frame is read.
pub fn extract_region(img: &GrayImage, x: u32, y: u32, w: u32, h: u32) -> (r: Option<Vec<u8>>)
    requires
        img.wf(),
    ensures
        r is None <==> !img@.fits(x as int, y as int, w as int, h as int),
        r matches Some(v) ==> v@ == region(img@, x as int, y as int, w as int, h as int),
{
    if x as u64 + w as u64 > img.width as u64 || y as u64 + h as u64 > img.height as u64 {
        return None;
    }
    let ghost view = img@;
    let mut out: Vec<u8> = Vec::new();
    let mut r: u32 = 0;
    while r < h
        invariant
            view == img@,
            img.wf(),
            view.fits(x as int, y as int, w as int, h as int),
            r <= h,
            out@ == region(view, x as int, y as int, w as int, r as int),
        decreases h - r,
    {
        let mut c: u32 = 0;
        proof {
            lemma_run_in_bounds(x as int, (y + r) as int, w as int, view.width, view.height);
            assert(row_run(view, x as int, (y + r) as int, 0) =~= Seq::empty());
            assert(out@ =~= out@ + row_run(view, x as int, (y + r) as int, 0));
        }
        while c < w
            invariant
                view == img@,
                img.wf(),
                view.fits(x as int, y as int, w as int, h as int),
                r < h,
                c <= w,
                out@ == region(view, x as int, y as int, w as int, r as int) + row_run(
                    view,
                    x as int,
                    (y + r) as int,
                    c as int,
                ),
            decreases w - c,
        {
            let i = img.index_of(x + c, y + r);
            let p = img.pixels[i];
            proof {
                lemma_run_in_bounds(x as int, (y + r) as int, w as int, view.width, view.height);
                assert(row_run(view, x as int, (y + r) as int, c as int).push(p) =~= row_run(
                    view,
                    x as int,
                    (y + r) as int,
                    c + 1,
                ));
            }
            out.push(p);
            c = c + 1;
        }
        r = r + 1;
    }
    Some(out)
}

/// The frame that holds exactly the rectangle `(x, y, w, h)` of `img`; `None`
/// where the rectangle leaves the frame.
pub fn crop(img: &GrayImage, x: u32, y: u32, w: u32, h: u32) -> (r: Option<GrayImage>)
    requires
        img.wf(),
    ensures
        r is None <==> !img@.fits(x as int, y as int, w as int, h as int),
        r matches Some(c) ==> c@ == crop_view(img@, x as int, y as int, w as int, h as int),
        r matches Some(c) ==> c.wf(),
{
    match extract_region(img, x, y, w, h) {
        None => None,
        Some(pixels) => {
            proof {
                lemma_region_len(img@, x as int, y as int, w as int, h as int);
            }
            Some(GrayImage { width: w, height: h, pixels })
        },
    }
}

/// The rectangle `(x, y, w, h)` of a frame whose pixels have `channels`
/// interleaved samples, row after row. `None` where `data` does not hold
/// `width * height` pixels, where a row holds more than `u32::MAX` samples,
/// or where the rectangle leaves the frame.
pub fn crop_interleaved(
    width: u32,
    height: u32,
    channels: u32,
    data: Vec<u8>,
    x: u32,
    y: u32,
    w: u32,
    h: u32,
) -> (r: Option<Vec<u8>>)
    ensures
        r is Some <==> (width * channels <= u32::MAX && data@.len() == width * channels * height
            && x + w <= width && y + h <= height),
        r matches Some(v) ==> v@ == region(
            ImageView { width: width * channels, height: height as int, pixels: data@ },
            x * channels,
            y as int,
            w * channels,
            h as int,
        ),
{
    proof {
        assert(width as int * channels as int <= 0xffff_ffff * 0xffff_ffff) by (nonlinear_arith)
            requires
                width <= 0xffff_ffff,
                channels <= 0xffff_ffff,
        ;
    }
    let row = width as u64 * channels as u64;
    if row > 0xffff_ffff || x as u64 + w as u64 > width as u64 || y as u64 + h as u64 > height as u64 {
        return None;
    }
    let img = match GrayImage::from_raw(row as u32, height, data) {
        None => return None,
        Some(img) => img,
    };
    proof {
        assert(x as int * channels as int + w as int * channels as int <= width as int
            * channels as int) by (nonlinear_arith)
            requires
                x + w <= width,
                channels >= 0,
        ;
        assert(0 <= x as int * channels as int) by (nonlinear_arith)
            requires
                x >= 0,
                channels >= 0,
        ;
        assert(0 <= w as int * channels as int) by (nonlinear_arith)
            requires
                w >= 0,
                channels >= 0,
        ;
    }
    extract_region(&img, x * channels, y, w * channels, h)
}

} // verus!
