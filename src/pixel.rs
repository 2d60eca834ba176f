use vstd::prelude::*;

use crate::error::{CaptureError, FormatError};

verus! {

/// `n / d` rounded to the nearest integer, halves away from zero.
pub open spec fn round_div(n: int, d: int) -> int
    recommends
        d > 0,
{
    if n >= 0 {
        (2 * n + d) / (2 * d)
    } else {
        -((-2 * n + d) / (2 * d))
    }
}

/// Saturates an integer into the range of a byte.
pub open spec fn clamp_byte(x: int) -> u8 {
    if x < 0 {
        0
    } else if x > 255 {
        255
    } else {
        x as u8
    }
}

/// Channels saturate instead of wrapping: below 0 gives 0, above 255 gives
/// 255, and anything in between is kept.
pub proof fn clamp_byte_saturates(x: int)
    ensures
        x <= 0 ==> clamp_byte(x) == 0,
        x >= 255 ==> clamp_byte(x) == 255,
        0 <= x <= 255 ==> clamp_byte(x) as int == x,
{
}

/// R = Y + 1.402 (V - 128), rounded and clamped.
pub open spec fn red_of(y: u8, v: u8) -> u8 {
    clamp_byte(round_div(1000 * y + 1402 * (v - 128), 1000))
}

/// G = Y - 0.344136 (U - 128) - 0.714136 (V - 128), rounded and clamped.
pub open spec fn green_of(y: u8, u: u8, v: u8) -> u8 {
    clamp_byte(round_div(1000000 * y - 344136 * (u - 128) - 714136 * (v - 128), 1000000))
}

/// B = Y + 1.772 (U - 128), rounded and clamped.
pub open spec fn blue_of(y: u8, u: u8) -> u8 {
    clamp_byte(round_div(1000 * y + 1772 * (u - 128), 1000))
}

/// Luma sample of pixel `p`: macropixel `p / 2` is laid out as (Y0, U, Y1, V).
pub open spec fn luma_at(raw: Seq<u8>, p: int) -> u8 {
    raw[4 * (p / 2) + 2 * (p % 2)]
}

/// U sample shared by pixel `p` and its partner.
pub open spec fn chroma_u_at(raw: Seq<u8>, p: int) -> u8 {
    raw[4 * (p / 2) + 1]
}

/// V sample shared by pixel `p` and its partner. With an odd pixel count the
/// last pixel has no V sample within the frame and is read with neutral chroma.
pub open spec fn chroma_v_at(raw: Seq<u8>, n: int, p: int) -> u8 {
    if 4 * (p / 2) + 3 < 2 * n {
        raw[4 * (p / 2) + 3]
    } else {
        128
    }
}

/// Channel `c` (0 red, 1 green, 2 blue) of pixel `p` of a frame of `n` pixels.
pub open spec fn channel_of(raw: Seq<u8>, n: int, p: int, c: int) -> u8 {
    let y = luma_at(raw, p);
    let u = chroma_u_at(raw, p);
    let v = chroma_v_at(raw, n, p);
    if c == 0 {
        red_of(y, v)
    } else if c == 1 {
        green_of(y, u, v)
    } else {
        blue_of(y, u)
    }
}

/// The packed RGB image (three bytes per pixel, row-major) that a raw YUYV
/// frame of `n` pixels stands for. Only the first `2 n` raw bytes are read.
pub open spec fn rgb_of_yuyv(raw: Seq<u8>, n: int) -> Seq<u8> {
    Seq::new((3 * n) as nat, |i: int| channel_of(raw, n, i / 3, i % 3))
}

fn round_div_exec(n: i64, d: i64) -> (r: i64)
    requires
        d > 0,
        -1_000_000_000_000 <= n <= 1_000_000_000_000,
        d <= 1_000_000,
    ensures
        r == round_div(n as int, d as int),
{
    let den: i64 = 2 * d;
    if n >= 0 {
        (2 * n + d) / den
    } else {
        let num: i64 = d - 2 * n;
        let q: i64 = num / den;
        assert(0 <= q <= num) by (nonlinear_arith)
            requires
                num > 0,
                den > 0,
                q == num / den,
        ;
        -q
    }
}

fn clamp_exec(x: i64) -> (r: u8)
    ensures
        r == clamp_byte(x as int),
{
    if x < 0 {
        0
    } else if x > 255 {
        255
    } else {
        x as u8
    }
}

fn red_exec(y: u8, v: u8) -> (r: u8)
    ensures
        r == red_of(y, v),
{
    clamp_exec(round_div_exec(1000 * (y as i64) + 1402 * (v as i64 - 128), 1000))
}

fn green_exec(y: u8, u: u8, v: u8) -> (r: u8)
    ensures
        r == green_of(y, u, v),
{
    let n = 1000000 * (y as i64) - 344136 * (u as i64 - 128) - 714136 * (v as i64 - 128);
    clamp_exec(round_div_exec(n, 1000000))
}

fn blue_exec(y: u8, u: u8) -> (r: u8)
    ensures
        r == blue_of(y, u),
{
    clamp_exec(round_div_exec(1000 * (y as i64) + 1772 * (u as i64 - 128), 1000))
}

/// Converts a packed YUYV (4:2:2) frame to packed RGB, three bytes per pixel.
///
/// Fails with a `FormatError` exactly when the frame holds fewer than
/// `width * height * 2` bytes; bytes beyond that length are not read.
pub fn yuyv_to_rgb(raw: &[u8], width: u32, height: u32) -> (r: Result<Vec<u8>, CaptureError>)
    requires
        width * height * 3 <= usize::MAX,
    ensures
        raw@.len() < width * height * 2 <==> r is Err,
        r matches Err(e) ==> e == CaptureError::Format(
            FormatError { actual: raw@.len() as usize, expected: (width * height * 2) as usize },
        ),
        r matches Ok(rgb) ==> rgb@ == rgb_of_yuyv(raw@, width * height),
        r matches Ok(rgb) ==> rgb@.len() == width * height * 3,
{
    let n: usize = (width as usize) * (height as usize);
    let expected: usize = n * 2;
    if raw.len() < expected {
        return Err(CaptureError::Format(FormatError { actual: raw.len(), expected }));
    }
    let mut rgb: Vec<u8> = Vec::with_capacity(n * 3);
    let mut p: usize = 0;
    while p < n
        invariant
            n == width * height,
            n * 3 <= usize::MAX,
            expected == n * 2,
            raw@.len() >= expected,
            p <= n,
            rgb@.len() == 3 * p,
            forall|i: int|
                0 <= i < 3 * p ==> #[trigger] rgb@[i] == channel_of(raw@, n as int, i / 3, i % 3),
        decreases n - p,
    {
        let m: usize = p / 2;
        let y = raw[4 * m + 2 * (p % 2)];
        let u = raw[4 * m + 1];
        let v = if 4 * m + 3 < expected {
            raw[4 * m + 3]
        } else {
            128u8
        };
        let ghost old_rgb = rgb@;
        rgb.push(red_exec(y, v));
        rgb.push(green_exec(y, u, v));
        rgb.push(blue_exec(y, u));
        proof {
            let pp = p as int;
            assert((3 * pp) / 3 == pp && (3 * pp) % 3 == 0) by (nonlinear_arith);
            assert((3 * pp + 1) / 3 == pp && (3 * pp + 1) % 3 == 1) by (nonlinear_arith);
            assert((3 * pp + 2) / 3 == pp && (3 * pp + 2) % 3 == 2) by (nonlinear_arith);
            assert(rgb@[3 * pp] == channel_of(raw@, n as int, (3 * pp) / 3, (3 * pp) % 3));
            assert(rgb@[3 * pp + 1] == channel_of(raw@, n as int, (3 * pp + 1) / 3, (3 * pp + 1) % 3));
            assert(rgb@[3 * pp + 2] == channel_of(raw@, n as int, (3 * pp + 2) / 3, (3 * pp + 2) % 3));
        }
        p = p + 1;
    }
    assert(rgb@ =~= rgb_of_yuyv(raw@, n as int));
    Ok(rgb)
}

/// Conversion is deterministic: two frames that agree on their first `2 n`
/// bytes convert to the same RGB image of `n` pixels.
pub proof fn yuyv_conversion_deterministic(a: Seq<u8>, b: Seq<u8>, n: nat)
    requires
        a.len() >= 2 * n,
        b.len() >= 2 * n,
        a.subrange(0, 2 * n as int) == b.subrange(0, 2 * n as int),
    ensures
        rgb_of_yuyv(a, n as int) == rgb_of_yuyv(b, n as int),
{
    assert forall|i: int| 0 <= i < 3 * n implies #[trigger] channel_of(a, n as int, i / 3, i % 3)
        == channel_of(b, n as int, i / 3, i % 3) by {
        let p = i / 3;
        assert(0 <= p < n);
        let m = p / 2;
        assert(4 * m + 2 * (p % 2) < 2 * n);
        assert(4 * m + 1 < 2 * n);
        assert(a[4 * m + 2 * (p % 2)] == a.subrange(0, 2 * n as int)[4 * m + 2 * (p % 2)]);
        assert(b[4 * m + 2 * (p % 2)] == b.subrange(0, 2 * n as int)[4 * m + 2 * (p % 2)]);
        assert(a[4 * m + 1] == a.subrange(0, 2 * n as int)[4 * m + 1]);
        assert(b[4 * m + 1] == b.subrange(0, 2 * n as int)[4 * m + 1]);
        if 4 * m + 3 < 2 * n {
            assert(a[4 * m + 3] == a.subrange(0, 2 * n as int)[4 * m + 3]);
            assert(b[4 * m + 3] == b.subrange(0, 2 * n as int)[4 * m + 3]);
        }
    }
    assert(rgb_of_yuyv(a, n as int) =~= rgb_of_yuyv(b, n as int));
}

} // verus!
