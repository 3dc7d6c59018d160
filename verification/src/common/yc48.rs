//! The YC48 pixel format and its conversions to and from YUY2 and RGB.

use vstd::prelude::*;

verus! {

/// A YC48 pixel.
#[derive(Debug, Clone, Copy, PartialEq, Eq)]
pub struct Yc48 {
    /// Luma, 0 to 4096.
    pub y: i16,
    /// Blue-difference chroma, -2048 to 2048.
    pub cb: i16,
    /// Red-difference chroma, -2048 to 2048.
    pub cr: i16,
}

/// The value `v` limited to the range of a byte, 0 to 255.
pub open spec fn clamp_to_byte(v: int) -> u8 {
    (if v < 0 {
        0
    } else if v < 255 {
        v
    } else {
        255
    }) as u8
}

/// YC48 luma of a YUY2 luma byte.
pub open spec fn yuy2_to_luma(y: int) -> int {
    (y * 1197) / 64 - 299
}

/// YC48 chroma of a YUY2 chroma byte.
pub open spec fn yuy2_to_chroma(c: int) -> int {
    ((c - 128) * 4681 + 164) / 256
}

/// YUY2 luma byte of a YC48 luma value.
pub open spec fn luma_to_yuy2(y: int) -> u8 {
    clamp_to_byte((y * 219 + 383) / 4096 + 16)
}

/// YUY2 chroma byte of a YC48 chroma value.
pub open spec fn chroma_to_yuy2(c: int) -> u8 {
    clamp_to_byte(((c + 2048) * 7 + 66) / 128 + 16)
}

/// YC48 of an RGB triple.
pub open spec fn rgb_to_yc48(r: int, g: int, b: int) -> (int, int, int) {
    (
        (4918 * r + 354) / 1024 + (9655 * g + 585) / 1024 + (1875 * b + 523) / 1024,
        (-2775 * r + 240) / 1024 + (-5449 * g + 515) / 1024 + (8224 * b + 256) / 1024,
        (8224 * r + 256) / 1024 + (-6887 * g + 110) / 1024 + (-1337 * b + 646) / 1024,
    )
}

/// RGB of a YC48 pixel, each channel limited to 0 to 255.
pub open spec fn yc48_to_rgb(y: int, cb: int, cr: int) -> (u8, u8, u8) {
    (
        clamp_to_byte((255 * y + ((22881 * cr) / 65536 + 3) * 1024) / 4096),
        clamp_to_byte((255 * y + ((-5616 * cb) / 65536 + (-11655 * cr) / 65536 + 3) * 1024) / 4096),
        clamp_to_byte((255 * y + ((28919 * cb) / 65536 + 3) * 1024) / 4096),
    )
}

/// The shift amounts that the conversions use.
pub open spec fn shift_ok(k: i32) -> bool {
    k == 1 || k == 6 || k == 7 || k == 8 || k == 10 || k == 12 || k == 16
}

/// The divisor that a right shift by `k` stands for.
pub open spec fn shift_div(k: i32) -> int {
    if k == 1 {
        2
    } else if k == 6 {
        64
    } else if k == 7 {
        128
    } else if k == 8 {
        256
    } else if k == 10 {
        1024
    } else if k == 12 {
        4096
    } else {
        65536
    }
}

proof fn lemma_floor_div(x: int, q: int, d: int)
    requires
        d > 0,
        q * d <= x < q * d + d,
    ensures
        x / d == q,
{
    assert(x / d == q) by (nonlinear_arith)
        requires
            d > 0,
            q * d <= x < q * d + d,
    ;
}

proof fn lemma_shr_i32(x: i32, k: i32)
    requires
        shift_ok(k),
    ensures
        (x >> k) as int == x as int / shift_div(k),
{
    if k == 1 {
        assert((x >> 1i32) * 2 <= x && x < (x >> 1i32) * 2 + 2) by (bit_vector);
    } else if k == 6 {
        assert((x >> 6i32) * 64 <= x && x < (x >> 6i32) * 64 + 64) by (bit_vector);
    } else if k == 7 {
        assert((x >> 7i32) * 128 <= x && x < (x >> 7i32) * 128 + 128) by (bit_vector);
    } else if k == 8 {
        assert((x >> 8i32) * 256 <= x && x < (x >> 8i32) * 256 + 256) by (bit_vector);
    } else if k == 10 {
        assert((x >> 10i32) * 1024 <= x && x < (x >> 10i32) * 1024 + 1024) by (bit_vector);
    } else if k == 12 {
        assert((x >> 12i32) * 4096 <= x && x < (x >> 12i32) * 4096 + 4096) by (bit_vector);
    } else {
        assert((x >> 16i32) * 65536 <= x && x < (x >> 16i32) * 65536 + 65536) by (bit_vector);
    }
    lemma_floor_div(x as int, (x >> k) as int, shift_div(k));
}

/// An arithmetic right shift: the quotient rounded down.
fn shr(x: i32, k: i32) -> (r: i32)
    requires
        shift_ok(k),
    ensures
        r as int == x as int / shift_div(k),
{
    proof {
        lemma_shr_i32(x, k);
    }
    x >> k
}

fn shl10(v: i32) -> (r: i32)
    requires
        -0x100000 <= v < 0x100000,
    ensures
        r as int == v as int * 1024,
{
    assert(-0x100000 <= v < 0x100000 ==> (v << 10i32) == v * 1024) by (bit_vector);
    v << 10
}

fn clamp_i32_to_byte(v: i32) -> (r: u8)
    ensures
        r == clamp_to_byte(v as int),
{
    if v < 0 {
        0
    } else if v < 255 {
        v as u8
    } else {
        255
    }
}

fn luma_from_yuy2(y: u8) -> (r: i32)
    ensures
        r as int == yuy2_to_luma(y as int),
        -299 <= r <= 4470,
{
    let q = shr((y as i32) * 1197, 6);
    assert(0 <= q <= 4769);
    q - 299
}

fn chroma_from_yuy2(c: u8) -> (r: i32)
    ensures
        r as int == yuy2_to_chroma(c as int),
        -2340 <= r <= 2322,
{
    shr(((c as i32) - 128) * 4681 + 164, 8)
}

fn luma_to_byte(y: i16) -> (r: u8)
    ensures
        r == luma_to_yuy2(y as int),
{
    let q = shr((y as i32) * 219 + 383, 12);
    assert(-1753 <= q <= 1752);
    clamp_i32_to_byte(q + 16)
}

fn chroma_to_byte(c: i16) -> (r: u8)
    ensures
        r == chroma_to_yuy2(c as int),
{
    let q = shr(((c as i32) + 2048) * 7 + 66, 7);
    assert(-1681 <= q <= 1905);
    clamp_i32_to_byte(q + 16)
}

impl Yc48 {
    /// Converts two YUY2 pixels `(y1, u, y2, v)` to YC48: the first keeps `y1`,
    /// the second takes the mean of the two luma values, and both share the
    /// chroma.
    pub fn from_yuy2(yuy2: (u8, u8, u8, u8)) -> (r: (Self, Self))
        ensures
            r.0.y == yuy2_to_luma(yuy2.0 as int),
            r.0.cb == yuy2_to_chroma(yuy2.1 as int),
            r.0.cr == yuy2_to_chroma(yuy2.3 as int),
            r.1.y == (yuy2_to_luma(yuy2.0 as int) + yuy2_to_luma(yuy2.2 as int)) / 2,
            r.1.cb == r.0.cb,
            r.1.cr == r.0.cr,
    {
        let (y1, u, y2, v) = yuy2;
        let ny1 = luma_from_yuy2(y1);
        let ny2 = luma_from_yuy2(y2);
        let ncb = chroma_from_yuy2(u);
        let ncr = chroma_from_yuy2(v);
        let mean = shr(ny1 + ny2, 1);
        (
            Yc48 { y: ny1 as i16, cb: ncb as i16, cr: ncr as i16 },
            Yc48 { y: mean as i16, cb: ncb as i16, cr: ncr as i16 },
        )
    }

    /// Converts two YC48 pixels to YUY2 `(y1, u, y2, v)`; the chroma comes
    /// from `self`. Each byte is limited to 0 to 255.
    pub fn to_yuy2(self, other: Yc48) -> (r: (u8, u8, u8, u8))
        ensures
            r == (
                luma_to_yuy2(self.y as int),
                chroma_to_yuy2(self.cb as int),
                luma_to_yuy2(other.y as int),
                chroma_to_yuy2(self.cr as int),
            ),
    {
        (
            luma_to_byte(self.y),
            chroma_to_byte(self.cb),
            luma_to_byte(other.y),
            chroma_to_byte(self.cr),
        )
    }

    /// Converts an RGB triple to YC48; `self` is not read.
    pub fn from_rgb(self, rgb: (u8, u8, u8)) -> (r: Self)
        ensures
            (r.y as int, r.cb as int, r.cr as int) == rgb_to_yc48(
                rgb.0 as int,
                rgb.1 as int,
                rgb.2 as int,
            ),
    {
        let (r, g, b) = rgb;
        let r = r as i32;
        let g = g as i32;
        let b = b as i32;
        let y = shr(4918 * r + 354, 10) + shr(9655 * g + 585, 10) + shr(1875 * b + 523, 10);
        let cb = shr(240 - 2775 * r, 10) + shr(515 - 5449 * g, 10) + shr(8224 * b + 256, 10);
        let cr = shr(8224 * r + 256, 10) + shr(110 - 6887 * g, 10) + shr(646 - 1337 * b, 10);
        assert(0 <= y <= 4096);
        assert(-2048 <= cb <= 2048);
        assert(-2048 <= cr <= 2048);
        Yc48 { y: y as i16, cb: cb as i16, cr: cr as i16 }
    }

    /// Converts to RGB; each channel is limited to 0 to 255.
    pub fn to_rgb(self) -> (r: (u8, u8, u8))
        ensures
            r == yc48_to_rgb(self.y as int, self.cb as int, self.cr as int),
    {
        let y = self.y as i32;
        let cb = self.cb as i32;
        let cr = self.cr as i32;
        let r = shr(255 * y + shl10(shr(22881 * cr, 16) + 3), 12);
        let g = shr(255 * y + shl10(shr(0 - 5616 * cb, 16) + shr(0 - 11655 * cr, 16) + 3), 12);
        let b = shr(255 * y + shl10(shr(28919 * cb, 16) + 3), 12);
        (clamp_i32_to_byte(r), clamp_i32_to_byte(g), clamp_i32_to_byte(b))
    }
}

/// Converting YUY2 to YC48 and back gives the first luma byte and both chroma
/// bytes back, for every byte value: the luma and the chroma each round-trip.
pub proof fn lemma_yuy2_roundtrip(y: u8, c: u8)
    ensures
        luma_to_yuy2(yuy2_to_luma(y as int)) == y,
        chroma_to_yuy2(yuy2_to_chroma(c as int)) == c,
{
    let yi = y as int;
    let q1 = (yi * 1197) / 64;
    assert(64 * q1 <= yi * 1197 < 64 * q1 + 64);
    let x1 = (q1 - 299) * 219 + 383;
    lemma_floor_div(x1, yi - 16, 4096);
    let ci = c as int;
    let q2 = ((ci - 128) * 4681 + 164) / 256;
    assert(256 * q2 <= (ci - 128) * 4681 + 164 < 256 * q2 + 256);
    let x2 = (q2 + 2048) * 7 + 66;
    lemma_floor_div(x2, ci - 16, 128);
}

} // verus!
