//! Image and audio data handed to the host: buffers, and the byte forms of
//! pixel and sample vectors.

use vstd::prelude::*;
use crate::common::Yc48;

verus! {

/// The bytes of a sequence of items, each item giving its bytes by `f`, in
/// order.
pub open spec fn flat_bytes<T>(s: Seq<T>, f: spec_fn(T) -> Seq<u8>) -> Seq<u8>
    decreases s.len(),
{
    if s.len() == 0 {
        Seq::empty()
    } else {
        flat_bytes(s.drop_last(), f) + f(s.last())
    }
}

/// The little-endian bytes of a 16-bit unsigned number.
pub open spec fn u16_le(v: u16) -> Seq<u8> {
    seq![(v % 256) as u8, (v / 256) as u8]
}

/// The little-endian bytes of a 16-bit signed number, in two's complement.
pub open spec fn i16_le(v: i16) -> Seq<u8> {
    u16_le(v as u16)
}

/// The bytes of an RGB triple.
pub open spec fn rgb_bytes(p: (u8, u8, u8)) -> Seq<u8> {
    seq![p.0, p.1, p.2]
}

/// The bytes of an RGBA quadruple.
pub open spec fn rgba_bytes(p: (u8, u8, u8, u8)) -> Seq<u8> {
    seq![p.0, p.1, p.2, p.3]
}

/// The bytes of a quadruple of 16-bit numbers.
pub open spec fn rgba64_bytes(p: (u16, u16, u16, u16)) -> Seq<u8> {
    u16_le(p.0) + u16_le(p.1) + u16_le(p.2) + u16_le(p.3)
}

/// The bytes of a triple of signed 16-bit numbers.
pub open spec fn i16_triple_bytes(p: (i16, i16, i16)) -> Seq<u8> {
    i16_le(p.0) + i16_le(p.1) + i16_le(p.2)
}

/// The bytes of a YC48 pixel: `y`, `cb`, `cr`.
pub open spec fn yc48_bytes(p: Yc48) -> Seq<u8> {
    i16_le(p.y) + i16_le(p.cb) + i16_le(p.cr)
}

/// The bytes of a pair of 16-bit samples.
pub open spec fn u16_pair_bytes(p: (u16, u16)) -> Seq<u8> {
    u16_le(p.0) + u16_le(p.1)
}

proof fn lemma_flat_bytes_take<T>(s: Seq<T>, i: int, f: spec_fn(T) -> Seq<u8>)
    requires
        0 <= i < s.len(),
    ensures
        flat_bytes(s.take(i + 1), f) == flat_bytes(s.take(i), f) + f(s[i]),
{
    assert(s.take(i + 1).drop_last() =~= s.take(i));
}

fn push_u16_le(out: &mut Vec<u8>, v: u16)
    ensures
        final(out)@ == old(out)@ + u16_le(v),
{
    out.push((v % 256) as u8);
    out.push((v / 256) as u8);
    assert(final(out)@ =~= old(out)@ + u16_le(v));
}

fn push_i16_le(out: &mut Vec<u8>, v: i16)
    ensures
        final(out)@ == old(out)@ + i16_le(v),
{
    push_u16_le(out, v as u16);
}

/// An image as the bytes that the host reads.
#[derive(Debug, Clone)]
pub struct ImageBuffer(pub Vec<u8>);

/// Audio as the bytes that the host reads.
#[derive(Debug, Clone)]
pub struct AudioBuffer(pub Vec<u8>);

/// Image data that can be handed to the host as bytes.
pub trait AsImage {
    /// The bytes of the image.
    spec fn image_bytes(&self) -> Seq<u8>;

    /// The bytes of the image.
    fn as_image(&self) -> (r: Vec<u8>)
        ensures
            r@ == self.image_bytes(),
    ;
}

/// Image data that can be turned into an [`ImageBuffer`].
pub trait IntoImage: Sized {
    /// The bytes of the image.
    spec fn into_image_bytes(&self) -> Seq<u8>;

    /// The image as a buffer.
    fn into_image(self) -> (r: ImageBuffer)
        ensures
            r.0@ == self.into_image_bytes(),
    ;
}

impl<T: AsImage> IntoImage for T {
    open spec fn into_image_bytes(&self) -> Seq<u8> {
        self.image_bytes()
    }

    fn into_image(self) -> (r: ImageBuffer) {
        ImageBuffer(self.as_image())
    }
}

/// Audio data that can be handed to the host as bytes.
pub trait AsAudio {
    /// The bytes of the audio.
    spec fn audio_bytes(&self) -> Seq<u8>;

    /// The bytes of the audio.
    fn as_audio(&self) -> (r: Vec<u8>)
        ensures
            r@ == self.audio_bytes(),
    ;
}

/// Audio data that can be turned into an [`AudioBuffer`].
pub trait IntoAudio: Sized {
    /// The bytes of the audio.
    spec fn into_audio_bytes(&self) -> Seq<u8>;

    /// The audio as a buffer.
    fn into_audio(self) -> (r: AudioBuffer)
        ensures
            r.0@ == self.into_audio_bytes(),
    ;
}

impl<T: AsAudio> IntoAudio for T {
    open spec fn into_audio_bytes(&self) -> Seq<u8> {
        self.audio_bytes()
    }

    fn into_audio(self) -> (r: AudioBuffer) {
        AudioBuffer(self.as_audio())
    }
}

fn copy_bytes(s: &[u8]) -> (r: Vec<u8>)
    ensures
        r@ == s@,
{
    let mut out: Vec<u8> = Vec::new();
    let n = s.len();
    let mut i: usize = 0;
    while i < n
        invariant
            n == s@.len(),
            i <= n,
            out@ == s@.take(i as int),
        decreases n - i,
    {
        out.push(s[i]);
        i = i + 1;
        assert(out@ =~= s@.take(i as int));
    }
    assert(s@.take(n as int) =~= s@);
    out
}

impl AsImage for ImageBuffer {
    open spec fn image_bytes(&self) -> Seq<u8> {
        self.0@
    }

    fn as_image(&self) -> (r: Vec<u8>) {
        copy_bytes(self.0.as_slice())
    }
}

impl AsImage for Vec<u8> {
    open spec fn image_bytes(&self) -> Seq<u8> {
        self@
    }

    fn as_image(&self) -> (r: Vec<u8>) {
        copy_bytes(self.as_slice())
    }
}

impl AsImage for Vec<u16> {
    open spec fn image_bytes(&self) -> Seq<u8> {
        flat_bytes(self@, |v: u16| u16_le(v))
    }

    fn as_image(&self) -> (r: Vec<u8>) {
        let ghost f = |v: u16| u16_le(v);
        let mut out: Vec<u8> = Vec::new();
        let n = self.len();
        let mut i: usize = 0;
        while i < n
            invariant
                n == self@.len(),
                i <= n,
                f == (|v: u16| u16_le(v)),
                out@ == flat_bytes(self@.take(i as int), f),
            decreases n - i,
        {
            push_u16_le(&mut out, self[i]);
            proof {
                lemma_flat_bytes_take(self@, i as int, f);
            }
            i = i + 1;
        }
        assert(self@.take(n as int) =~= self@);
        out
    }
}

impl AsImage for Vec<i16> {
    open spec fn image_bytes(&self) -> Seq<u8> {
        flat_bytes(self@, |v: i16| i16_le(v))
    }

    fn as_image(&self) -> (r: Vec<u8>) {
        let ghost f = |v: i16| i16_le(v);
        let mut out: Vec<u8> = Vec::new();
        let n = self.len();
        let mut i: usize = 0;
        while i < n
            invariant
                n == self@.len(),
                i <= n,
                f == (|v: i16| i16_le(v)),
                out@ == flat_bytes(self@.take(i as int), f),
            decreases n - i,
        {
            push_i16_le(&mut out, self[i]);
            proof {
                lemma_flat_bytes_take(self@, i as int, f);
            }
            i = i + 1;
        }
        assert(self@.take(n as int) =~= self@);
        out
    }
}

impl AsImage for Vec<Yc48> {
    open spec fn image_bytes(&self) -> Seq<u8> {
        flat_bytes(self@, |p: Yc48| yc48_bytes(p))
    }

    fn as_image(&self) -> (r: Vec<u8>) {
        let ghost f = |p: Yc48| yc48_bytes(p);
        let mut out: Vec<u8> = Vec::new();
        let n = self.len();
        let mut i: usize = 0;
        while i < n
            invariant
                n == self@.len(),
                i <= n,
                f == (|p: Yc48| yc48_bytes(p)),
                out@ == flat_bytes(self@.take(i as int), f),
            decreases n - i,
        {
            let p = self[i];
            let ghost before = out@;
            push_i16_le(&mut out, p.y);
            push_i16_le(&mut out, p.cb);
            push_i16_le(&mut out, p.cr);
            proof {
                assert(out@ =~= before + yc48_bytes(p));
                lemma_flat_bytes_take(self@, i as int, f);
            }
            i = i + 1;
        }
        assert(self@.take(n as int) =~= self@);
        out
    }
}

impl AsImage for Vec<(u8, u8, u8)> {
    open spec fn image_bytes(&self) -> Seq<u8> {
        flat_bytes(self@, |p: (u8, u8, u8)| rgb_bytes(p))
    }

    fn as_image(&self) -> (r: Vec<u8>) {
        let ghost f = |p: (u8, u8, u8)| rgb_bytes(p);
        let mut out: Vec<u8> = Vec::new();
        let n = self.len();
        let mut i: usize = 0;
        while i < n
            invariant
                n == self@.len(),
                i <= n,
                f == (|p: (u8, u8, u8)| rgb_bytes(p)),
                out@ == flat_bytes(self@.take(i as int), f),
            decreases n - i,
        {
            let p = self[i];
            let ghost before = out@;
            out.push(p.0);
            out.push(p.1);
            out.push(p.2);
            proof {
                assert(out@ =~= before + rgb_bytes(p));
                lemma_flat_bytes_take(self@, i as int, f);
            }
            i = i + 1;
        }
        assert(self@.take(n as int) =~= self@);
        out
    }
}

impl AsImage for Vec<(u8, u8, u8, u8)> {
    open spec fn image_bytes(&self) -> Seq<u8> {
        flat_bytes(self@, |p: (u8, u8, u8, u8)| rgba_bytes(p))
    }

    fn as_image(&self) -> (r: Vec<u8>) {
        let ghost f = |p: (u8, u8, u8, u8)| rgba_bytes(p);
        let mut out: Vec<u8> = Vec::new();
        let n = self.len();
        let mut i: usize = 0;
        while i < n
            invariant
                n == self@.len(),
                i <= n,
                f == (|p: (u8, u8, u8, u8)| rgba_bytes(p)),
                out@ == flat_bytes(self@.take(i as int), f),
            decreases n - i,
        {
            let p = self[i];
            let ghost before = out@;
            out.push(p.0);
            out.push(p.1);
            out.push(p.2);
            out.push(p.3);
            proof {
                assert(out@ =~= before + rgba_bytes(p));
                lemma_flat_bytes_take(self@, i as int, f);
            }
            i = i + 1;
        }
        assert(self@.take(n as int) =~= self@);
        out
    }
}

impl AsImage for Vec<(u16, u16, u16, u16)> {
    open spec fn image_bytes(&self) -> Seq<u8> {
        flat_bytes(self@, |p: (u16, u16, u16, u16)| rgba64_bytes(p))
    }

    fn as_image(&self) -> (r: Vec<u8>) {
        let ghost f = |p: (u16, u16, u16, u16)| rgba64_bytes(p);
        let mut out: Vec<u8> = Vec::new();
        let n = self.len();
        let mut i: usize = 0;
        while i < n
            invariant
                n == self@.len(),
                i <= n,
                f == (|p: (u16, u16, u16, u16)| rgba64_bytes(p)),
                out@ == flat_bytes(self@.take(i as int), f),
            decreases n - i,
        {
            let p = self[i];
            let ghost before = out@;
            push_u16_le(&mut out, p.0);
            push_u16_le(&mut out, p.1);
            push_u16_le(&mut out, p.2);
            push_u16_le(&mut out, p.3);
            proof {
                assert(out@ =~= before + rgba64_bytes(p));
                lemma_flat_bytes_take(self@, i as int, f);
            }
            i = i + 1;
        }
        assert(self@.take(n as int) =~= self@);
        out
    }
}

impl AsImage for Vec<(i16, i16, i16)> {
    open spec fn image_bytes(&self) -> Seq<u8> {
        flat_bytes(self@, |p: (i16, i16, i16)| i16_triple_bytes(p))
    }

    fn as_image(&self) -> (r: Vec<u8>) {
        let ghost f = |p: (i16, i16, i16)| i16_triple_bytes(p);
        let mut out: Vec<u8> = Vec::new();
        let n = self.len();
        let mut i: usize = 0;
        while i < n
            invariant
                n == self@.len(),
                i <= n,
                f == (|p: (i16, i16, i16)| i16_triple_bytes(p)),
                out@ == flat_bytes(self@.take(i as int), f),
            decreases n - i,
        {
            let p = self[i];
            let ghost before = out@;
            push_i16_le(&mut out, p.0);
            push_i16_le(&mut out, p.1);
            push_i16_le(&mut out, p.2);
            proof {
                assert(out@ =~= before + i16_triple_bytes(p));
                lemma_flat_bytes_take(self@, i as int, f);
            }
            i = i + 1;
        }
        assert(self@.take(n as int) =~= self@);
        out
    }
}

impl AsAudio for AudioBuffer {
    open spec fn audio_bytes(&self) -> Seq<u8> {
        self.0@
    }

    fn as_audio(&self) -> (r: Vec<u8>) {
        copy_bytes(self.0.as_slice())
    }
}

impl AsAudio for Vec<u8> {
    open spec fn audio_bytes(&self) -> Seq<u8> {
        self@
    }

    fn as_audio(&self) -> (r: Vec<u8>) {
        copy_bytes(self.as_slice())
    }
}

impl AsAudio for Vec<u16> {
    open spec fn audio_bytes(&self) -> Seq<u8> {
        flat_bytes(self@, |v: u16| u16_le(v))
    }

    fn as_audio(&self) -> (r: Vec<u8>) {
        self.as_image()
    }
}

impl AsAudio for Vec<(u16, u16)> {
    open spec fn audio_bytes(&self) -> Seq<u8> {
        flat_bytes(self@, |p: (u16, u16)| u16_pair_bytes(p))
    }

    fn as_audio(&self) -> (r: Vec<u8>) {
        let ghost f = |p: (u16, u16)| u16_pair_bytes(p);
        let mut out: Vec<u8> = Vec::new();
        let n = self.len();
        let mut i: usize = 0;
        while i < n
            invariant
                n == self@.len(),
                i <= n,
                f == (|p: (u16, u16)| u16_pair_bytes(p)),
                out@ == flat_bytes(self@.take(i as int), f),
            decreases n - i,
        {
            let p = self[i];
            let ghost before = out@;
            push_u16_le(&mut out, p.0);
            push_u16_le(&mut out, p.1);
            proof {
                assert(out@ =~= before + u16_pair_bytes(p));
                lemma_flat_bytes_take(self@, i as int, f);
            }
            i = i + 1;
        }
        assert(self@.take(n as int) =~= self@);
        out
    }
}

/// The byte form of items that each give the same number of bytes is that
/// number times the number of items long.
pub proof fn lemma_flat_bytes_len<T>(s: Seq<T>, f: spec_fn(T) -> Seq<u8>, k: nat)
    requires
        forall|t: T| #[trigger] f(t).len() == k,
    ensures
        flat_bytes(s, f).len() == s.len() * k,
    decreases s.len(),
{
    if s.len() > 0 {
        lemma_flat_bytes_len(s.drop_last(), f, k);
        assert(flat_bytes(s, f).len() == (s.len() - 1) * k + k);
        assert((s.len() - 1) * k + k == s.len() * k) by (nonlinear_arith);
    }
}

} // verus!
