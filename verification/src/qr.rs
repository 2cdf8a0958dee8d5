//! Reading the device-linking QR code from a pasted screenshot.
//!
//! A screenshot is not always easy to decode: it may be inverted, low in
//! contrast, tiny or huge. The decoder is tried on a series of variants of
//! the grayscale image, in a fixed order, until one decodes. This module
//! holds that order and the pixel operations on grayscale images; decoding,
//! resampling and blurring are left to the image libraries of the caller.

use vstd::prelude::*;

verus! {

/// An 8-bit grayscale image, row by row.
pub struct GrayImage {
    pub width: u32,
    pub height: u32,
    pub pixels: Vec<u8>,
}

/// `f` applied to every pixel.
pub open spec fn mapped(before: Seq<u8>, after: Seq<u8>, f: spec_fn(u8) -> u8) -> bool {
    after.len() == before.len() && forall|i: int| 0 <= i < before.len() ==> after[i] == f(before[i])
}

/// The negative of a pixel.
pub open spec fn negative(v: u8) -> u8 {
    (255 - v) as u8
}

/// A pixel in black and white: white above `threshold`, black otherwise.
pub open spec fn thresholded(v: u8, threshold: u8) -> u8 {
    if v > threshold {
        255u8
    } else {
        0u8
    }
}

/// The negative of the image.
pub fn invert(g: &GrayImage) -> (r: GrayImage)
    ensures
        r.width == g.width,
        r.height == g.height,
        mapped(g.pixels@, r.pixels@, |v: u8| negative(v)),
{
    let mut out: Vec<u8> = Vec::new();
    let mut i: usize = 0;
    while i < g.pixels.len()
        invariant
            i <= g.pixels@.len(),
            out@.len() == i,
            forall|j: int| 0 <= j < i ==> out@[j] == (255 - g.pixels@[j]) as u8,
        decreases g.pixels@.len() - i,
    {
        out.push(255 - g.pixels[i]);
        i = i + 1;
    }
    GrayImage { width: g.width, height: g.height, pixels: out }
}

/// Black and white: pixels above `threshold` become white, the others
/// black.
pub fn apply_threshold(g: &GrayImage, threshold: u8) -> (r: GrayImage)
    ensures
        r.width == g.width,
        r.height == g.height,
        mapped(g.pixels@, r.pixels@, |v: u8| thresholded(v, threshold)),
{
    let mut out: Vec<u8> = Vec::new();
    let mut i: usize = 0;
    while i < g.pixels.len()
        invariant
            i <= g.pixels@.len(),
            out@.len() == i,
            forall|j: int| 0 <= j < i ==> out@[j] == if g.pixels@[j] > threshold { 255u8 } else { 0u8 },
        decreases g.pixels@.len() - i,
    {
        let v = g.pixels[i];
        out.push(if v > threshold { 255 } else { 0 });
        i = i + 1;
    }
    GrayImage { width: g.width, height: g.height, pixels: out }
}

/// Integer division rounding toward zero, as Rust's `/` and a float's
/// `as` conversion do.
pub open spec fn div_toward_zero(a: int, b: int) -> int {
    if a >= 0 {
        a / b
    } else {
        -((-a) / b)
    }
}

/// `v` clamped to `0..=255`.
pub open spec fn clamp_byte(v: int) -> u8 {
    if v < 0 {
        0
    } else if v > 255 {
        255
    } else {
        v as u8
    }
}

/// A pixel with its contrast around mid-gray scaled by
/// `contrast_num / contrast_den` (the product truncated toward zero), then
/// `brightness` added, clamped to a byte.
pub open spec fn contrast_pixel(v: u8, brightness: i32, contrast_num: i32, contrast_den: i32) -> u8 {
    clamp_byte(div_toward_zero((v - 128) * contrast_num, contrast_den as int) + 128 + brightness)
}

/// Changes brightness and contrast. The contrast factor is the fraction
/// `contrast_num / contrast_den`; the factors the decoder uses (1.5 and 2)
/// are exact fractions, so the result is what scaling by the decimal factor
/// and truncating gives.
pub fn adjust_brightness_contrast(g: &GrayImage, brightness: i32, contrast_num: i32, contrast_den: i32) -> (r:
    GrayImage)
    requires
        -1000 <= brightness <= 1000,
        0 <= contrast_num <= 1000,
        1 <= contrast_den <= 1000,
    ensures
        r.width == g.width,
        r.height == g.height,
        mapped(g.pixels@, r.pixels@, |v: u8| contrast_pixel(v, brightness, contrast_num, contrast_den)),
{
    let mut out: Vec<u8> = Vec::new();
    let mut i: usize = 0;
    while i < g.pixels.len()
        invariant
            i <= g.pixels@.len(),
            -1000 <= brightness <= 1000,
            0 <= contrast_num <= 1000,
            1 <= contrast_den <= 1000,
            out@.len() == i,
            forall|j: int|
                0 <= j < i ==> out@[j] == contrast_pixel(g.pixels@[j], brightness, contrast_num, contrast_den),
        decreases g.pixels@.len() - i,
    {
        let d: i32 = g.pixels[i] as i32 - 128;
        assert(-128 * 1000 <= d * contrast_num <= 127 * 1000) by (nonlinear_arith)
            requires
                -128 <= d <= 127,
                0 <= contrast_num <= 1000,
        ;
        let p: i32 = d * contrast_num;
        let den: u32 = contrast_den as u32;
        let q: i32 = if p >= 0 {
            ((p as u32) / den) as i32
        } else {
            0 - (((0 - p) as u32) / den) as i32
        };
        assert(q == div_toward_zero(p as int, contrast_den as int));
        let v: i32 = q + 128 + brightness;
        let b: u8 = if v < 0 {
            0
        } else if v > 255 {
            255
        } else {
            v as u8
        };
        out.push(b);
        i = i + 1;
    }
    GrayImage { width: g.width, height: g.height, pixels: out }
}

/// A variant of the screenshot to try the decoder on.
#[derive(PartialEq, Eq, Structural, Clone, Copy)]
pub enum QrAttempt {
    /// The grayscale image as it is.
    Plain,
    Inverted,
    Threshold { threshold: u8 },
    BrightnessContrast { brightness: i32, contrast_num: i32, contrast_den: i32 },
    /// Enlarged `scale` times, nearest-neighbour.
    Upscaled { scale: u32 },
    UpscaledThreshold { scale: u32, threshold: u8 },
    UpscaledContrast { scale: u32, brightness: i32, contrast_num: i32, contrast_den: i32 },
    /// Shrunk so that its longer side is 800 pixels (Lanczos).
    Downscaled,
    /// Gaussian blur of sigma 1, then the threshold.
    BlurredThreshold { threshold: u8 },
}

/// The variants tried, in order: as is, inverted, five thresholds, three
/// brightness/contrast settings, three enlargements, enlargements with a
/// threshold and with more contrast, a shrunk copy of a large image, and a
/// blurred black-and-white copy.
pub open spec fn qr_attempts_spec(width: u32, height: u32) -> Seq<QrAttempt> {
    seq![
        QrAttempt::Plain,
        QrAttempt::Inverted,
        QrAttempt::Threshold { threshold: 100 },
        QrAttempt::Threshold { threshold: 128 },
        QrAttempt::Threshold { threshold: 150 },
        QrAttempt::Threshold { threshold: 180 },
        QrAttempt::Threshold { threshold: 200 },
        QrAttempt::BrightnessContrast { brightness: 20, contrast_num: 3, contrast_den: 2 },
        QrAttempt::BrightnessContrast { brightness: (-20) as i32, contrast_num: 3, contrast_den: 2 },
        QrAttempt::BrightnessContrast { brightness: 0, contrast_num: 2, contrast_den: 1 },
        QrAttempt::Upscaled { scale: 2 },
        QrAttempt::Upscaled { scale: 3 },
        QrAttempt::Upscaled { scale: 4 },
        QrAttempt::UpscaledThreshold { scale: 2, threshold: 128 },
        QrAttempt::UpscaledThreshold { scale: 3, threshold: 128 },
        QrAttempt::UpscaledThreshold { scale: 2, threshold: 150 },
        QrAttempt::UpscaledContrast { scale: 2, brightness: 0, contrast_num: 2, contrast_den: 1 },
        QrAttempt::UpscaledContrast { scale: 3, brightness: 0, contrast_num: 2, contrast_den: 1 },
    ] + (if width > 800 || height > 800 {
        seq![QrAttempt::Downscaled]
    } else {
        Seq::empty()
    }) + seq![QrAttempt::BlurredThreshold { threshold: 128 }]
}

/// The variants of a `width` x `height` screenshot to try, in order.
pub fn qr_attempts(width: u32, height: u32) -> (r: Vec<QrAttempt>)
    ensures
        r@ == qr_attempts_spec(width, height),
{
    let mut v: Vec<QrAttempt> = vec![
        QrAttempt::Plain,
        QrAttempt::Inverted,
        QrAttempt::Threshold { threshold: 100 },
        QrAttempt::Threshold { threshold: 128 },
        QrAttempt::Threshold { threshold: 150 },
        QrAttempt::Threshold { threshold: 180 },
        QrAttempt::Threshold { threshold: 200 },
        QrAttempt::BrightnessContrast { brightness: 20, contrast_num: 3, contrast_den: 2 },
        QrAttempt::BrightnessContrast { brightness: -20, contrast_num: 3, contrast_den: 2 },
        QrAttempt::BrightnessContrast { brightness: 0, contrast_num: 2, contrast_den: 1 },
        QrAttempt::Upscaled { scale: 2 },
        QrAttempt::Upscaled { scale: 3 },
        QrAttempt::Upscaled { scale: 4 },
        QrAttempt::UpscaledThreshold { scale: 2, threshold: 128 },
        QrAttempt::UpscaledThreshold { scale: 3, threshold: 128 },
        QrAttempt::UpscaledThreshold { scale: 2, threshold: 150 },
        QrAttempt::UpscaledContrast { scale: 2, brightness: 0, contrast_num: 2, contrast_den: 1 },
        QrAttempt::UpscaledContrast { scale: 3, brightness: 0, contrast_num: 2, contrast_den: 1 },
    ];
    if width > 800 || height > 800 {
        v.push(QrAttempt::Downscaled);
    }
    v.push(QrAttempt::BlurredThreshold { threshold: 128 });
    assert(v@ =~= qr_attempts_spec(width, height));
    v
}

/// The message given when no variant decodes.
pub fn qr_failure_text() -> (r: String)
    ensures
        r@ == "Could not decode QR code. The image may be damaged, too blurry, or partially obscured."@,
{
    String::from_str("Could not decode QR code. The image may be damaged, too blurry, or partially obscured.")
}

/// The length of an image's bytes divided by its number of pixels.
pub open spec fn pixel_size(len: usize, width: u32, height: u32) -> int {
    len as int / (width as int * height as int)
}

/// How many bytes per pixel a clipboard image of this size and length
/// has: 4 (RGBA) and 3 (RGB) are understood, any other count is refused.
pub fn bytes_per_pixel(len: usize, width: u32, height: u32) -> (r: Result<usize, usize>)
    requires
        width > 0,
        height > 0,
        width * height <= usize::MAX,
    ensures
        pixel_size(len, width, height) == 4 ==> r == Ok::<usize, usize>(4),
        pixel_size(len, width, height) == 3 ==> r == Ok::<usize, usize>(3),
        pixel_size(len, width, height) != 4 && pixel_size(len, width, height) != 3 ==> r == Err::<usize, usize>(
            pixel_size(len, width, height) as usize,
        ),
{
    let area: usize = (width as usize) * (height as usize);
    assert(area > 0) by (nonlinear_arith)
        requires
            area == width * height,
            width > 0,
            height > 0,
    ;
    let n = len / area;
    if n == 4 {
        Ok(4)
    } else if n == 3 {
        Ok(3)
    } else {
        Err(n)
    }
}

// ---------------------------------------------------------------------------
// Laws of the image variants
// ---------------------------------------------------------------------------

/// A pixel and its negative add up to white, so inverting twice gives the
/// image back.
pub proof fn lemma_invert_twice(a: Seq<u8>, b: Seq<u8>, c: Seq<u8>)
    requires
        mapped(a, b, |v: u8| negative(v)),
        mapped(b, c, |v: u8| negative(v)),
    ensures
        forall|v: u8| #[trigger] negative(v) as int + v as int == 255,
        c == a,
{
    assert forall|i: int| 0 <= i < a.len() implies c[i] == a[i] by {
        assert(b[i] == negative(a[i]));
        assert(c[i] == negative(b[i]));
    }
    assert(c =~= a);
}

/// The threshold makes a black-and-white image: every pixel becomes black
/// or white, darker pixels never come out lighter than lighter ones, a
/// pixel at the threshold is black and one just above it white.
pub proof fn lemma_threshold_black_and_white(v: u8, w: u8, threshold: u8)
    ensures
        thresholded(v, threshold) == 0 || thresholded(v, threshold) == 255,
        v <= w ==> thresholded(v, threshold) <= thresholded(w, threshold),
        thresholded(threshold, threshold) == 0,
        threshold < 255 ==> thresholded((threshold + 1) as u8, threshold) == 255,
{
}

/// With no brightness change and a contrast factor of one a pixel stays as
/// it is; mid-gray moves by the brightness alone, whatever the contrast.
pub proof fn lemma_contrast_neutral(v: u8, brightness: i32, contrast_num: i32, contrast_den: i32)
    requires
        1 <= contrast_den,
    ensures
        contrast_pixel(v, 0, 1, 1) == v,
        0 <= 128 + brightness <= 255 ==> contrast_pixel(128, brightness, contrast_num, contrast_den) == 128 + brightness,
{
    assert(div_toward_zero(0, contrast_den as int) == 0);
}

/// The screenshot is tried as it is first, then inverted, and last as a
/// blurred black-and-white copy; a shrunk copy is tried only for a
/// screenshot with a side longer than 800 pixels.
pub proof fn lemma_attempt_order(width: u32, height: u32)
    ensures
        qr_attempts_spec(width, height)[0] == QrAttempt::Plain,
        qr_attempts_spec(width, height)[1] == QrAttempt::Inverted,
        qr_attempts_spec(width, height).last() == (QrAttempt::BlurredThreshold { threshold: 128 }),
        qr_attempts_spec(width, height).contains(QrAttempt::Downscaled) <==> (width > 800 || height > 800),
        qr_attempts_spec(width, height).len() == if width > 800 || height > 800 {
            20int
        } else {
            19int
        },
{
    let s = qr_attempts_spec(width, height);
    if width > 800 || height > 800 {
        assert(s[18] == QrAttempt::Downscaled);
    } else {
        assert forall|i: int| 0 <= i < s.len() implies s[i] != QrAttempt::Downscaled by {}
    }
}

} // verus!
