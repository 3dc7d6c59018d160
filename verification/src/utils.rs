//! Byte-order and row-order helpers for pixel buffers.

use vstd::prelude::*;

verus! {

/// A three-channel pixel with its first and last channels exchanged.
pub open spec fn swap_first_last3(p: (u8, u8, u8)) -> (u8, u8, u8) {
    (p.2, p.1, p.0)
}

/// A four-channel pixel with its first and third channels exchanged.
pub open spec fn swap_first_third4(p: (u8, u8, u8, u8)) -> (u8, u8, u8, u8) {
    (p.2, p.1, p.0, p.3)
}

/// Packed bytes read as groups of `stride` (3 or 4), with the first and third
/// byte of every group exchanged.
pub open spec fn swap_packed(s: Seq<u8>, stride: int) -> Seq<u8> {
    Seq::new(
        s.len(),
        |i: int|
            if i % stride == 0 {
                s[i + 2]
            } else if i % stride == 2 {
                s[i - 2]
            } else {
                s[i]
            },
    )
}

/// The rows of a `width`-wide image stored in `s`, in reverse order.
pub open spec fn flipped_rows<T>(s: Seq<T>, width: int, height: int) -> Seq<T> {
    Seq::new(s.len(), |i: int| s[(height - 1 - i / width) * width + i % width])
}

/// Reads a slice of `(b, g, r)` pixels as `(r, g, b)`, in place.
///
/// Exchanging the first and last channel is its own inverse, so the same
/// call also turns RGB into BGR.
pub fn bgr_to_rgb(data: &mut [(u8, u8, u8)])
    ensures
        final(data)@ == old(data)@.map_values(|p: (u8, u8, u8)| swap_first_last3(p)),
{
    let n = data.len();
    let mut i: usize = 0;
    while i < n
        invariant
            n == data@.len(),
            data@.len() == old(data)@.len(),
            i <= n,
            forall|k: int| 0 <= k < i ==> data@[k] == swap_first_last3(#[trigger] old(data)@[k]),
            forall|k: int| i <= k < n ==> data@[k] == old(data)@[k],
        decreases n - i,
    {
        let (b, g, r) = data[i];
        data[i] = (r, g, b);
        i = i + 1;
    }
    assert(data@ =~= old(data)@.map_values(|p: (u8, u8, u8)| swap_first_last3(p)));
}

/// Reads a slice of `(r, g, b)` pixels as `(b, g, r)`, in place; the same
/// operation as [`bgr_to_rgb`].
#[inline]
pub fn rgb_to_bgr(data: &mut [(u8, u8, u8)])
    ensures
        final(data)@ == old(data)@.map_values(|p: (u8, u8, u8)| swap_first_last3(p)),
{
    bgr_to_rgb(data);
}

/// Exchanges the first and third byte of every 3-byte group, in place.
pub fn bgr_to_rgb_bytes(data: &mut [u8])
    requires
        old(data)@.len() % 3 == 0,
    ensures
        final(data)@ == swap_packed(old(data)@, 3),
{
    swap_packed_in_place(data, 3);
}

/// The same operation as [`bgr_to_rgb_bytes`].
#[inline]
pub fn rgb_to_bgr_bytes(data: &mut [u8])
    requires
        old(data)@.len() % 3 == 0,
    ensures
        final(data)@ == swap_packed(old(data)@, 3),
{
    bgr_to_rgb_bytes(data);
}

/// Reads a slice of `(r, g, b, a)` pixels as `(b, g, r, a)`, in place; the
/// same call turns BGRA into RGBA.
pub fn rgba_to_bgra(data: &mut [(u8, u8, u8, u8)])
    ensures
        final(data)@ == old(data)@.map_values(|p: (u8, u8, u8, u8)| swap_first_third4(p)),
{
    let n = data.len();
    let mut i: usize = 0;
    while i < n
        invariant
            n == data@.len(),
            data@.len() == old(data)@.len(),
            i <= n,
            forall|k: int|
                0 <= k < i ==> data@[k] == swap_first_third4(#[trigger] old(data)@[k]),
            forall|k: int| i <= k < n ==> data@[k] == old(data)@[k],
        decreases n - i,
    {
        let (b, g, r, a) = data[i];
        data[i] = (r, g, b, a);
        i = i + 1;
    }
    assert(data@ =~= old(data)@.map_values(|p: (u8, u8, u8, u8)| swap_first_third4(p)));
}

/// The same operation as [`rgba_to_bgra`].
#[inline]
pub fn bgra_to_rgba(data: &mut [(u8, u8, u8, u8)])
    ensures
        final(data)@ == old(data)@.map_values(|p: (u8, u8, u8, u8)| swap_first_third4(p)),
{
    rgba_to_bgra(data);
}

/// Exchanges the first and third byte of every 4-byte group, in place.
pub fn rgba_to_bgra_bytes(data: &mut [u8])
    requires
        old(data)@.len() % 4 == 0,
    ensures
        final(data)@ == swap_packed(old(data)@, 4),
{
    swap_packed_in_place(data, 4);
}

/// The same operation as [`rgba_to_bgra_bytes`].
#[inline]
pub fn bgra_to_rgba_bytes(data: &mut [u8])
    requires
        old(data)@.len() % 4 == 0,
    ensures
        final(data)@ == swap_packed(old(data)@, 4),
{
    rgba_to_bgra_bytes(data);
}

fn swap_packed_in_place(data: &mut [u8], stride: usize)
    requires
        stride == 3 || stride == 4,
        (old(data)@.len() as int) % (stride as int) == 0,
    ensures
        final(data)@ == swap_packed(old(data)@, stride as int),
{
    let n = data.len();
    let mut start: usize = 0;
    while start < n
        invariant
            stride == 3 || stride == 4,
            n == data@.len(),
            data@.len() == old(data)@.len(),
            (n as int) % (stride as int) == 0,
            start <= n,
            (start as int) % (stride as int) == 0,
            forall|k: int|
                0 <= k < start ==> #[trigger] data@[k] == swap_packed(old(data)@, stride as int)[k],
            forall|k: int| start <= k < n ==> #[trigger] data@[k] == old(data)@[k],
        decreases n - start,
    {
        assert(start + stride <= n) by (nonlinear_arith)
            requires
                start < n,
                (start as int) % (stride as int) == 0,
                (n as int) % (stride as int) == 0,
                stride > 0,
        ;
        let first = data[start];
        let third = data[start + 2];
        data[start] = third;
        data[start + 2] = first;
        proof {
            assert forall|k: int| start <= k < start + stride implies #[trigger] data@[k]
                == swap_packed(old(data)@, stride as int)[k] by {
                let m = stride as int;
                let q = (start as int) / m;
                vstd::arithmetic::div_mod::lemma_fundamental_div_mod(start as int, m);
                vstd::arithmetic::div_mod::lemma_mod_multiples_vanish(q, k - start, m);
                assert(m * q + (k - start) == k);
                assert(k % (stride as int) == k - start) by (nonlinear_arith)
                    requires
                        (start as int) % (stride as int) == 0,
                        start <= k < start + stride,
                        stride > 0,
                ;
            }
        }
        start = start + stride;
    }
}

/// Exchanges the two slice elements at `a` and `b`.
#[verifier::external_body]
fn slice_swap<T>(data: &mut [T], a: usize, b: usize)
    requires
        a < old(data)@.len(),
        b < old(data)@.len(),
    ensures
        final(data)@ == old(data)@.update(a as int, old(data)@[b as int]).update(
            b as int,
            old(data)@[a as int],
        ),
{
    data.swap(a, b);
}

proof fn lemma_row_index(width: int, height: int, y: int, x: int)
    requires
        0 <= y < height,
        0 <= x < width,
    ensures
        0 <= y * width + x < width * height,
        (y * width + x) / width == y,
        (y * width + x) % width == x,
{
    assert(0 <= y * width + x < width * height) by (nonlinear_arith)
        requires
            0 <= y < height,
            0 <= x < width,
    ;
    assert((y * width + x) / width == y) by (nonlinear_arith)
        requires
            0 <= y < height,
            0 <= x < width,
    ;
    assert((y * width + x) % width == x) by (nonlinear_arith)
        requires
            0 <= y < height,
            0 <= x < width,
    ;
}

/// Reads `data` as `height` rows of `width` elements and reverses the order of
/// the rows, in place.
pub fn flip_vertical<T>(data: &mut [T], width: usize, height: usize)
    requires
        old(data)@.len() == width as int * height as int,
    ensures
        final(data)@ == flipped_rows(old(data)@, width as int, height as int),
{
    let ghost w = width as int;
    let ghost h = height as int;
    let ghost orig = data@;
    let n = data.len();
    let half = height / 2;
    let mut y: usize = 0;
    while y < half
        invariant
            orig == old(data)@,
            n == data@.len(),
            data@.len() == orig.len(),
            orig.len() == w * h,
            w == width,
            h == height,
            half == height / 2,
            y <= half,
            forall|r: int, c: int|
                #![trigger data@[r * w + c]]
                0 <= c < w && ((0 <= r < y) || (h - y <= r < h)) ==> data@[r * w + c] == orig[(h
                    - 1 - r) * w + c],
            forall|r: int, c: int|
                #![trigger data@[r * w + c]]
                0 <= c < w && y <= r < h - y ==> data@[r * w + c] == orig[r * w + c],
        decreases half - y,
    {
        let bottom = height - 1 - y;
        let mut x: usize = 0;
        while x < width
            invariant
                orig == old(data)@,
                n == data@.len(),
                data@.len() == orig.len(),
                orig.len() == w * h,
                w == width,
                h == height,
                half == height / 2,
                y < half,
                bottom == h - 1 - y,
                x <= width,
                forall|r: int, c: int|
                    #![trigger data@[r * w + c]]
                    0 <= c < w && ((0 <= r < y) || (h - y <= r < h)) ==> data@[r * w + c]
                        == orig[(h - 1 - r) * w + c],
                forall|c: int|
                    #![trigger data@[y * w + c]]
                    0 <= c < x ==> data@[y * w + c] == orig[(h - 1 - y) * w + c],
                forall|c: int|
                    #![trigger data@[(h - 1 - y) * w + c]]
                    0 <= c < x ==> data@[(h - 1 - y) * w + c] == orig[y * w + c],
                forall|r: int, c: int|
                    #![trigger data@[r * w + c]]
                    0 <= c < w && y <= r < h - y && !((r == y || r == h - 1 - y) && c < x)
                        ==> data@[r * w + c] == orig[r * w + c],
            decreases width - x,
        {
            proof {
                lemma_row_index(w, h, y as int, x as int);
                lemma_row_index(w, h, bottom as int, x as int);
            }
            let top_i = y * width + x;
            let bottom_i = bottom * width + x;
            let ghost before = data@;
            slice_swap(data, top_i, bottom_i);
            proof {
                assert forall|r: int, c: int|
                    0 <= r < h && 0 <= c < w && !(r == y && c == x) && !(r == h - 1 - y && c
                        == x) implies #[trigger] data@[r * w + c] == before[r * w + c] by {
                    lemma_row_index(w, h, r, c);
                    lemma_row_index(w, h, y as int, x as int);
                    lemma_row_index(w, h, bottom as int, x as int);
                }
            }
            x = x + 1;
        }
        y = y + 1;
    }
    proof {
        assert forall|i: int| 0 <= i < data@.len() implies data@[i] == flipped_rows(
            orig,
            w,
            h,
        )[i] by {
            let r = i / w;
            let c = i % w;
            assert(w > 0) by (nonlinear_arith)
                requires
                    0 <= i < w * h,
                    0 <= h,
            ;
            assert(0 <= r < h && 0 <= c < w && i == r * w + c) by (nonlinear_arith)
                requires
                    0 <= i < w * h,
                    w > 0,
                    r == i / w,
                    c == i % w,
            ;
        }
        assert(data@ =~= flipped_rows(orig, w, h));
    }
}

/// Exchanging the first and last channel twice gives back the pixel.
pub proof fn lemma_swap_first_last3_involution(p: (u8, u8, u8))
    ensures
        swap_first_last3(swap_first_last3(p)) == p,
{
}

/// Exchanging the first and third channel twice gives back the pixel.
pub proof fn lemma_swap_first_third4_involution(p: (u8, u8, u8, u8))
    ensures
        swap_first_third4(swap_first_third4(p)) == p,
{
}

/// Exchanging the first and third byte of each group twice gives back the
/// bytes.
pub proof fn lemma_swap_packed_involution(s: Seq<u8>, stride: int)
    requires
        stride == 3 || stride == 4,
        (s.len() as int) % stride == 0,
    ensures
        swap_packed(swap_packed(s, stride), stride) == s,
{
    let t = swap_packed(s, stride);
    assert forall|i: int| 0 <= i < s.len() implies swap_packed(t, stride)[i] == s[i] by {
        if i % stride == 0 {
            assert(i + 2 < s.len()) by (nonlinear_arith)
                requires
                    0 <= i < s.len(),
                    i % stride == 0,
                    (s.len() as int) % stride == 0,
                    stride >= 3,
            ;
            assert((i + 2) % stride == 2) by (nonlinear_arith)
                requires
                    i % stride == 0,
                    stride >= 3,
            ;
        } else if i % stride == 2 {
            assert(i >= 2 && (i - 2) % stride == 0) by (nonlinear_arith)
                requires
                    i >= 0,
                    i % stride == 2,
                    stride >= 3,
            ;
        }
    }
    assert(swap_packed(t, stride) =~= s);
}

/// Reversing the rows twice gives back the image.
pub proof fn lemma_flipped_rows_involution<T>(s: Seq<T>, width: int, height: int)
    requires
        0 <= width,
        0 <= height,
        s.len() == width * height,
    ensures
        flipped_rows(flipped_rows(s, width, height), width, height) == s,
{
    let t = flipped_rows(s, width, height);
    assert forall|i: int| 0 <= i < s.len() implies flipped_rows(t, width, height)[i] == s[i] by {
        let r = i / width;
        let c = i % width;
        assert(width > 0) by (nonlinear_arith)
            requires
                0 <= i < width * height,
                0 <= height,
        ;
        assert(0 <= r < height && 0 <= c < width && i == r * width + c) by (nonlinear_arith)
            requires
                0 <= i < width * height,
                width > 0,
                r == i / width,
                c == i % width,
        ;
        let j = (height - 1 - r) * width + c;
        lemma_row_index(width, height, height - 1 - r, c);
        lemma_row_index(width, height, r, c);
    }
    assert(flipped_rows(t, width, height) =~= s);
}

} // verus!
