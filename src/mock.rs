use vstd::prelude::*;
use vstd::arithmetic::div_mod::{lemma_add_mod_noop_right, lemma_hoist_over_denominator};

use crate::camera::Camera;
use crate::error::CaptureError;
use crate::jpeg::{jpeg_of, rgb_to_jpeg, JPEG_MAX_SIDE};

verus! {

/// Red of the synthetic gradient: `(255 x / width + t) mod 255`, floored.
pub open spec fn mock_red(x: int, width: int, t: int) -> int {
    ((255 * x) / width + t) % 255
}

/// Green of the synthetic gradient: `(255 y / height + t / 2) mod 255`, floored.
pub open spec fn mock_green(y: int, height: int, t: int) -> int {
    ((510 * y + t * height) / (2 * height)) % 255
}

/// Blue of the synthetic gradient: `((x / width + y / height) 127 + t / 4) mod 255`, floored.
pub open spec fn mock_blue(x: int, y: int, width: int, height: int, t: int) -> int {
    ((508 * (x * height + y * width) + t * (width * height)) / (4 * (width * height))) % 255
}

/// Distance between the white reference stripes: a tenth of the width, at least 1.
pub open spec fn stripe_step(width: int) -> int {
    if width / 10 >= 1 {
        width / 10
    } else {
        1
    }
}

/// Channel `c` of pixel `p` (row-major) of the synthetic frame for counter `t`.
pub open spec fn mock_channel(width: int, height: int, t: int, p: int, c: int) -> u8 {
    let x = p % width;
    let y = p / width;
    if x % stripe_step(width) == 0 {
        255
    } else if c == 0 {
        mock_red(x, width, t) as u8
    } else if c == 1 {
        mock_green(y, height, t) as u8
    } else {
        mock_blue(x, y, width, height, t) as u8
    }
}

/// The packed RGB synthetic frame for counter value `t`.
pub open spec fn mock_rgb(width: int, height: int, t: int) -> Seq<u8> {
    Seq::new((3 * (width * height)) as nat, |i: int| mock_channel(width, height, t, i / 3, i % 3))
}

fn red_at(x: u32, width: u32, t: u64) -> (r: u8)
    requires
        x < width,
    ensures
        r as int == mock_red(x as int, width as int, t as int),
{
    let a: u64 = (255 * (x as u64)) / (width as u64);
    proof {
        lemma_add_mod_noop_right(a as int, t as int, 255);
    }
    ((a + t % 255) % 255) as u8
}

fn green_at(y: u32, height: u32, t: u64) -> (r: u8)
    requires
        height > 0,
    ensures
        r as int == mock_green(y as int, height as int, t as int),
{
    let q: u64 = t / 2;
    let s: u64 = t % 2;
    let den: u64 = 2 * (height as u64);
    assert(s * (height as u64) <= height) by (nonlinear_arith)
        requires
            s <= 1,
    ;
    let g0: u64 = (510 * (y as u64) + s * (height as u64)) / den;
    proof {
        let (yi, hi, ti, qi, si) = (y as int, height as int, t as int, q as int, s as int);
        assert(ti * hi == si * hi + qi * (2 * hi)) by (nonlinear_arith)
            requires
                ti == 2 * qi + si,
        ;
        lemma_hoist_over_denominator(510 * yi + si * hi, qi, (2 * hi) as nat);
        lemma_add_mod_noop_right(g0 as int, qi, 255);
    }
    ((g0 + q % 255) % 255) as u8
}

fn blue_at(x: u32, y: u32, width: u32, height: u32, t: u64) -> (r: u8)
    requires
        x < width,
        y < height,
    ensures
        r as int == mock_blue(x as int, y as int, width as int, height as int, t as int),
{
    let q: u64 = t / 4;
    let s: u64 = t % 4;
    let (wi, hi): (u128, u128) = (width as u128, height as u128);
    assert(wi * hi <= 0xffff_ffff_ffff_ffff && (x as u128) * hi <= 0xffff_ffff_ffff_ffff && (y as u128)
        * wi <= 0xffff_ffff_ffff_ffff) by (nonlinear_arith)
        requires
            wi <= 0xffff_ffff,
            hi <= 0xffff_ffff,
            (x as u128) < wi,
            (y as u128) < hi,
    ;
    assert(wi * hi > 0) by (nonlinear_arith)
        requires
            (x as u128) < wi,
            (y as u128) < hi,
    ;
    let area: u128 = wi * hi;
    assert((s as u128) * area <= 4 * area) by (nonlinear_arith)
        requires
            s < 4,
    ;
    let num: u128 = 508 * ((x as u128) * (height as u128) + (y as u128) * (width as u128)) + (s as u128) * area;
    let b0: u128 = num / (4 * area);
    proof {
        let (ti, qi, si, ai) = (t as int, q as int, s as int, area as int);
        assert(ti * ai == si * ai + qi * (4 * ai)) by (nonlinear_arith)
            requires
                ti == 4 * qi + si,
        ;
        lemma_hoist_over_denominator(num as int - si * ai + si * ai, qi, (4 * ai) as nat);
        lemma_add_mod_noop_right(b0 as int, qi, 255);
    }
    ((b0 + (q % 255) as u128) % 255) as u8
}

/// Renders the synthetic frame for counter value `counter`: an animated
/// gradient with white vertical stripes every `max(1, width / 10)` columns.
pub fn render_mock_rgb(width: u32, height: u32, counter: u64) -> (r: Vec<u8>)
    requires
        width * height * 3 <= usize::MAX,
    ensures
        r@ == mock_rgb(width as int, height as int, counter as int),
        r@.len() == width * height * 3,
{
    let n: usize = (width as usize) * (height as usize);
    let step: u32 = if width / 10 >= 1 { width / 10 } else { 1 };
    let mut rgb: Vec<u8> = Vec::with_capacity(n * 3);
    let mut p: usize = 0;
    while p < n
        invariant
            n == width * height,
            n * 3 <= usize::MAX,
            step == stripe_step(width as int),
            p <= n,
            rgb@.len() == 3 * p,
            forall|i: int|
                0 <= i < 3 * p ==> #[trigger] rgb@[i] == mock_channel(
                    width as int,
                    height as int,
                    counter as int,
                    i / 3,
                    i % 3,
                ),
        decreases n - p,
    {
        let w: usize = width as usize;
        assert(w > 0) by (nonlinear_arith)
            requires
                p < n,
                n == w * height,
        ;
        let x: u32 = (p % w) as u32;
        let yy: usize = p / w;
        assert(yy < height) by (nonlinear_arith)
            requires
                p < n,
                n == w * height,
                w > 0,
                yy == p / w,
        ;
        let y: u32 = yy as u32;
        if x % step == 0 {
            rgb.push(255);
            rgb.push(255);
            rgb.push(255);
        } else {
            rgb.push(red_at(x, width, counter));
            rgb.push(green_at(y, height, counter));
            rgb.push(blue_at(x, y, width, height, counter));
        }
        proof {
            let pp = p as int;
            assert((3 * pp) / 3 == pp && (3 * pp) % 3 == 0) by (nonlinear_arith);
            assert((3 * pp + 1) / 3 == pp && (3 * pp + 1) % 3 == 1) by (nonlinear_arith);
            assert((3 * pp + 2) / 3 == pp && (3 * pp + 2) % 3 == 2) by (nonlinear_arith);
            let (wi, hi, ti) = (width as int, height as int, counter as int);
            assert(rgb@[3 * pp] == mock_channel(wi, hi, ti, (3 * pp) / 3, (3 * pp) % 3));
            assert(rgb@[3 * pp + 1] == mock_channel(wi, hi, ti, (3 * pp + 1) / 3, (3 * pp + 1) % 3));
            assert(rgb@[3 * pp + 2] == mock_channel(wi, hi, ti, (3 * pp + 2) / 3, (3 * pp + 2) % 3));
        }
        p = p + 1;
    }
    assert(rgb@ =~= mock_rgb(width as int, height as int, counter as int));
    rgb
}

/// Quality at which synthetic frames are encoded.
pub const MOCK_JPEG_QUALITY: u8 = 80;

/// Renders the synthetic frame for `counter` and encodes it as JPEG at quality 80.
pub fn generate_frame(width: u32, height: u32, counter: u64) -> (r: Result<Vec<u8>, CaptureError>)
    requires
        width * height * 3 <= usize::MAX,
    ensures
        r is Ok <==> (width <= JPEG_MAX_SIDE && height <= JPEG_MAX_SIDE),
        r matches Ok(b) ==> b@ == jpeg_of(
            mock_rgb(width as int, height as int, counter as int),
            width,
            height,
            MOCK_JPEG_QUALITY,
        ),
        r matches Err(e) ==> e is Encode,
{
    let rgb = render_mock_rgb(width, height, counter);
    rgb_to_jpeg(&rgb, width, height, MOCK_JPEG_QUALITY)
}

} // verus!

verus! {

/// A camera that needs no hardware: each capture renders the synthetic
/// gradient for the next value of a frame counter.
#[derive(Debug)]
pub struct MockCamera {
    counter: u64,
    width: u32,
    height: u32,
}

impl MockCamera {
    /// Number of frames handed out so far.
    pub closed spec fn frame_count(&self) -> u64 {
        self.counter
    }

    /// Width of the frames, in pixels.
    pub closed spec fn frame_width(&self) -> u32 {
        self.width
    }

    /// Height of the frames, in pixels.
    pub closed spec fn frame_height(&self) -> u32 {
        self.height
    }

    /// A mock camera of the given resolution whose counter starts at zero.
    pub fn new(width: u32, height: u32) -> (r: Self)
        ensures
            r.frame_count() == 0,
            r.frame_width() == width,
            r.frame_height() == height,
    {
        MockCamera { counter: 0, width, height }
    }

    /// Number of frames handed out so far.
    pub fn counter(&self) -> (r: u64)
        ensures
            r == self.frame_count(),
    {
        self.counter
    }

    /// Advances the frame counter by one and returns its new value, which
    /// selects the frame to render.
    pub fn next_frame_number(&mut self) -> (r: u64)
        requires
            old(self).frame_count() < u64::MAX,
        ensures
            final(self).frame_count() == old(self).frame_count() + 1,
            r == final(self).frame_count(),
            final(self).frame_width() == old(self).frame_width(),
            final(self).frame_height() == old(self).frame_height(),
    {
        self.counter = self.counter + 1;
        self.counter
    }

    /// Advances the counter and encodes the synthetic frame for its new value.
    pub fn capture_frame(&mut self) -> (r: Result<Vec<u8>, CaptureError>)
        requires
            old(self).frame_count() < u64::MAX,
            old(self).frame_width() * old(self).frame_height() * 3 <= usize::MAX,
        ensures
            final(self).frame_count() == old(self).frame_count() + 1,
            final(self).frame_width() == old(self).frame_width(),
            final(self).frame_height() == old(self).frame_height(),
            r is Ok <==> (old(self).frame_width() <= JPEG_MAX_SIDE && old(self).frame_height()
                <= JPEG_MAX_SIDE),
            r matches Ok(b) ==> b@ == jpeg_of(
                mock_rgb(
                    old(self).frame_width() as int,
                    old(self).frame_height() as int,
                    final(self).frame_count() as int,
                ),
                old(self).frame_width(),
                old(self).frame_height(),
                MOCK_JPEG_QUALITY,
            ),
            r matches Err(e) ==> e is Encode,
    {
        let t = self.next_frame_number();
        generate_frame(self.width, self.height, t)
    }
}

impl Camera for MockCamera {
    open spec fn can_capture(&self) -> bool {
        &&& self.frame_count() < u64::MAX
        &&& self.frame_width() * self.frame_height() * 3 <= usize::MAX
    }

    fn capture_frame(&mut self) -> (r: Result<Vec<u8>, CaptureError>)
        ensures
            final(self).frame_count() == old(self).frame_count() + 1,
            final(self).frame_width() == old(self).frame_width(),
            final(self).frame_height() == old(self).frame_height(),
            r is Ok <==> (old(self).frame_width() <= JPEG_MAX_SIDE && old(self).frame_height()
                <= JPEG_MAX_SIDE),
            r matches Ok(b) ==> b@ == jpeg_of(
                mock_rgb(
                    old(self).frame_width() as int,
                    old(self).frame_height() as int,
                    final(self).frame_count() as int,
                ),
                old(self).frame_width(),
                old(self).frame_height(),
                MOCK_JPEG_QUALITY,
            ),
            r matches Err(e) ==> e is Encode,
    {
        MockCamera::capture_frame(self)
    }
}

} // verus!
