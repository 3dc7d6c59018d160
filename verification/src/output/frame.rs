//! Video frames as the host hands them to an output plugin: the raw bytes of
//! a frame in each format, and frames decoded into pixels with the rows
//! turned top-down.

use vstd::prelude::*;
use crate::common::Yc48;
use crate::input::info::{BI_PA64, BI_RGB, BI_YC48, BI_YUY2, WAVE_FORMAT_PCM};
use crate::output::info::VideoOutputInfo;
use crate::text::push_str;
use crate::utils::{flip_vertical, flipped_rows};

verus! {

/// The little-endian 16-bit word at word index `k` of a byte sequence.
pub open spec fn word_at(data: Seq<u8>, k: int) -> u16 {
    (data[2 * k] + 256 * data[2 * k + 1]) as u16
}

/// The first `n` words of a byte sequence.
pub open spec fn words_of(data: Seq<u8>, n: nat) -> Seq<u16> {
    Seq::new(n, |k: int| word_at(data, k))
}

/// The first `n` words of a byte sequence, read as signed numbers.
pub open spec fn signed_words_of(data: Seq<u8>, n: nat) -> Seq<i16> {
    Seq::new(n, |k: int| word_at(data, k) as i16)
}

/// The first `n` pixels of BGR bytes, as `(r, g, b)`.
pub open spec fn bgr_pixels(data: Seq<u8>, n: nat) -> Seq<(u8, u8, u8)> {
    Seq::new(n, |i: int| (data[3 * i + 2], data[3 * i + 1], data[3 * i]))
}

/// The first `n` YC48 pixels of the bytes: three words each, read in the
/// order `y`, `cb`, `cr`.
pub open spec fn yc48_pixels(data: Seq<u8>, n: nat) -> Seq<Yc48> {
    Seq::new(
        n,
        |i: int|
            Yc48 {
                y: word_at(data, 3 * i) as i16,
                cb: word_at(data, 3 * i + 1) as i16,
                cr: word_at(data, 3 * i + 2) as i16,
            },
    )
}

/// The first `n` PA64 pixels of the bytes: four words each.
pub open spec fn pa64_pixels(data: Seq<u8>, n: nat) -> Seq<(u16, u16, u16, u16)> {
    Seq::new(
        n,
        |i: int|
            (word_at(data, 4 * i), word_at(data, 4 * i + 1), word_at(data, 4 * i + 2), word_at(
                data,
                4 * i + 3,
            )),
    )
}

/// The number of pixels of a frame.
pub open spec fn pixel_count(video: VideoOutputInfo) -> nat {
    (video.width * video.height) as nat
}

/// A decoded RGB frame: `(r, g, b)` pixels, rows from the top down.
#[derive(Debug, Clone)]
pub struct RgbVideoFrame {
    /// The pixels.
    pub data: Vec<(u8, u8, u8)>,
}

/// A YUY2 frame: `(y1, u, y2, v)` for each pair of pixels.
#[derive(Debug, Clone)]
pub struct Yuy2VideoFrame {
    /// The pixel pairs.
    pub data: Vec<(u8, u8, u8, u8)>,
}

/// A decoded YC48 frame, rows from the top down.
#[derive(Debug, Clone)]
pub struct Yc48VideoFrame {
    /// The pixels.
    pub data: Vec<Yc48>,
}

/// A decoded PA64 frame: `(r, g, b, a)` of 16 bits each, rows from the top
/// down.
#[derive(Debug, Clone)]
pub struct Pa64VideoFrame {
    /// The pixels.
    pub data: Vec<(u16, u16, u16, u16)>,
}

/// The raw bytes of a BGR frame, rows from the bottom up.
#[derive(Debug, Clone)]
pub struct RawBgrVideoFrame {
    /// The bytes.
    pub data: Vec<u8>,
}

/// The raw bytes of a YUY2 frame.
#[derive(Debug, Clone)]
pub struct RawYuy2VideoFrame {
    /// The bytes.
    pub data: Vec<u8>,
}

/// The raw words of a YC48 frame.
#[derive(Debug, Clone)]
pub struct RawYc48VideoFrame {
    /// The words.
    pub data: Vec<i16>,
}

/// The raw words of a PA64 frame.
#[derive(Debug, Clone)]
pub struct RawPa64VideoFrame {
    /// The words.
    pub data: Vec<u16>,
}

fn word(data: &[u8], k: usize) -> (r: u16)
    requires
        2 * k + 1 < data@.len(),
    ensures
        r == word_at(data@, k as int),
{
    let len = data.len();
    (data[2 * k] as u16) + (data[2 * k + 1] as u16) * 256
}

/// A frame format that can be read from the bytes the host hands over.
pub trait FromRawVideoFrame: Sized {
    /// The bytes of one frame of this format.
    spec fn frame_len(video: VideoOutputInfo) -> nat;

    /// Whether the format suits the video.
    spec fn suits(video: VideoOutputInfo) -> bool;

    /// `frame` is what the bytes `data` of a frame read as.
    spec fn read_from(video: VideoOutputInfo, data: Seq<u8>, frame: Self) -> bool;

    /// The bitmap compression code of this format.
    spec fn format_code() -> u32;

    /// The bitmap compression code by which the host is asked for frames of
    /// this format.
    fn format() -> (r: u32)
        ensures
            r == Self::format_code(),
    ;

    /// Whether the format suits the video, and why not.
    fn check(video: &VideoOutputInfo) -> (r: Result<(), String>)
        ensures
            r is Ok <==> Self::suits(*video),
    ;

    /// Reads a frame from its bytes.
    fn from_raw(video: &VideoOutputInfo, data: &[u8]) -> (r: Self)
        requires
            Self::suits(*video),
            data@.len() == Self::frame_len(*video),
            video.width * video.height * 8 <= usize::MAX,
        ensures
            Self::read_from(*video, data@, r),
    ;
}

impl FromRawVideoFrame for RgbVideoFrame {
    open spec fn frame_len(video: VideoOutputInfo) -> nat {
        pixel_count(video) * 3
    }

    open spec fn suits(video: VideoOutputInfo) -> bool {
        true
    }

    open spec fn read_from(video: VideoOutputInfo, data: Seq<u8>, frame: Self) -> bool {
        frame.data@ == flipped_rows(
            bgr_pixels(data, pixel_count(video)),
            video.width as int,
            video.height as int,
        )
    }

    open spec fn format_code() -> u32 {
        BI_RGB
    }

    fn format() -> (r: u32) {
        BI_RGB
    }

    fn check(video: &VideoOutputInfo) -> (r: Result<(), String>) {
        Ok(())
    }

    fn from_raw(video: &VideoOutputInfo, data: &[u8]) -> (r: Self) {
        let w = video.width as usize;
        let h = video.height as usize;
        let n = w * h;
        let mut out: Vec<(u8, u8, u8)> = Vec::new();
        let len = data.len();
        let mut i: usize = 0;
        while i < n
            invariant
                len == data@.len(),
                n == pixel_count(*video),
                data@.len() == n * 3,
                i <= n,
                out@ == bgr_pixels(data@, i as nat),
            decreases n - i,
        {
            proof {
                assert(3 * i + 2 < data@.len()) by (nonlinear_arith)
                    requires
                        i < n,
                        data@.len() == n * 3,
                ;
            }
            out.push((data[3 * i + 2], data[3 * i + 1], data[3 * i]));
            i = i + 1;
            assert(out@ =~= bgr_pixels(data@, i as nat));
        }
        flip_vertical(out.as_mut_slice(), w, h);
        RgbVideoFrame { data: out }
    }
}

impl FromRawVideoFrame for Yc48VideoFrame {
    open spec fn frame_len(video: VideoOutputInfo) -> nat {
        pixel_count(video) * 6
    }

    open spec fn suits(video: VideoOutputInfo) -> bool {
        true
    }

    open spec fn read_from(video: VideoOutputInfo, data: Seq<u8>, frame: Self) -> bool {
        frame.data@ == flipped_rows(
            yc48_pixels(data, pixel_count(video)),
            video.width as int,
            video.height as int,
        )
    }

    open spec fn format_code() -> u32 {
        BI_YC48
    }

    fn format() -> (r: u32) {
        BI_YC48
    }

    fn check(video: &VideoOutputInfo) -> (r: Result<(), String>) {
        Ok(())
    }

    fn from_raw(video: &VideoOutputInfo, data: &[u8]) -> (r: Self) {
        let w = video.width as usize;
        let h = video.height as usize;
        let n = w * h;
        let mut out: Vec<Yc48> = Vec::new();
        let len = data.len();
        let mut i: usize = 0;
        while i < n
            invariant
                len == data@.len(),
                n == pixel_count(*video),
                data@.len() == n * 6,
                i <= n,
                out@ == yc48_pixels(data@, i as nat),
            decreases n - i,
        {
            proof {
                assert(2 * (3 * i + 2) + 1 < data@.len()) by (nonlinear_arith)
                    requires
                        i < n,
                        data@.len() == n * 6,
                ;
            }
            let y = word(data, 3 * i) as i16;
            let cb = word(data, 3 * i + 1) as i16;
            let cr = word(data, 3 * i + 2) as i16;
            out.push(Yc48 { y, cb, cr });
            i = i + 1;
            assert(out@ =~= yc48_pixels(data@, i as nat));
        }
        flip_vertical(out.as_mut_slice(), w, h);
        Yc48VideoFrame { data: out }
    }
}

impl FromRawVideoFrame for Pa64VideoFrame {
    open spec fn frame_len(video: VideoOutputInfo) -> nat {
        pixel_count(video) * 8
    }

    open spec fn suits(video: VideoOutputInfo) -> bool {
        true
    }

    open spec fn read_from(video: VideoOutputInfo, data: Seq<u8>, frame: Self) -> bool {
        frame.data@ == flipped_rows(
            pa64_pixels(data, pixel_count(video)),
            video.width as int,
            video.height as int,
        )
    }

    open spec fn format_code() -> u32 {
        BI_PA64
    }

    fn format() -> (r: u32) {
        BI_PA64
    }

    fn check(video: &VideoOutputInfo) -> (r: Result<(), String>) {
        Ok(())
    }

    fn from_raw(video: &VideoOutputInfo, data: &[u8]) -> (r: Self) {
        let w = video.width as usize;
        let h = video.height as usize;
        let n = w * h;
        let mut out: Vec<(u16, u16, u16, u16)> = Vec::new();
        let len = data.len();
        let mut i: usize = 0;
        while i < n
            invariant
                len == data@.len(),
                n == pixel_count(*video),
                data@.len() == n * 8,
                i <= n,
                out@ == pa64_pixels(data@, i as nat),
            decreases n - i,
        {
            proof {
                assert(2 * (4 * i + 3) + 1 < data@.len()) by (nonlinear_arith)
                    requires
                        i < n,
                        data@.len() == n * 8,
                ;
            }
            out.push(
                (
                    word(data, 4 * i),
                    word(data, 4 * i + 1),
                    word(data, 4 * i + 2),
                    word(data, 4 * i + 3),
                ),
            );
            i = i + 1;
            assert(out@ =~= pa64_pixels(data@, i as nat));
        }
        flip_vertical(out.as_mut_slice(), w, h);
        Pa64VideoFrame { data: out }
    }
}

fn copy_prefix(data: &[u8], n: usize) -> (r: Vec<u8>)
    requires
        n <= data@.len(),
    ensures
        r@ == data@.take(n as int),
{
    let mut out: Vec<u8> = Vec::new();
    let mut i: usize = 0;
    while i < n
        invariant
            n <= data@.len(),
            i <= n,
            out@ == data@.take(i as int),
        decreases n - i,
    {
        out.push(data[i]);
        i = i + 1;
        assert(out@ =~= data@.take(i as int));
    }
    out
}

impl FromRawVideoFrame for RawBgrVideoFrame {
    open spec fn frame_len(video: VideoOutputInfo) -> nat {
        pixel_count(video) * 3
    }

    open spec fn suits(video: VideoOutputInfo) -> bool {
        true
    }

    open spec fn read_from(video: VideoOutputInfo, data: Seq<u8>, frame: Self) -> bool {
        frame.data@ == data
    }

    open spec fn format_code() -> u32 {
        BI_RGB
    }

    fn format() -> (r: u32) {
        BI_RGB
    }

    fn check(video: &VideoOutputInfo) -> (r: Result<(), String>) {
        Ok(())
    }

    fn from_raw(video: &VideoOutputInfo, data: &[u8]) -> (r: Self) {
        let v = copy_prefix(data, data.len());
        assert(data@.take(data@.len() as int) =~= data@);
        RawBgrVideoFrame { data: v }
    }
}

impl FromRawVideoFrame for RawYuy2VideoFrame {
    open spec fn frame_len(video: VideoOutputInfo) -> nat {
        pixel_count(video) * 2
    }

    open spec fn suits(video: VideoOutputInfo) -> bool {
        true
    }

    open spec fn read_from(video: VideoOutputInfo, data: Seq<u8>, frame: Self) -> bool {
        frame.data@ == data
    }

    open spec fn format_code() -> u32 {
        BI_YUY2
    }

    fn format() -> (r: u32) {
        BI_YUY2
    }

    fn check(video: &VideoOutputInfo) -> (r: Result<(), String>) {
        Ok(())
    }

    fn from_raw(video: &VideoOutputInfo, data: &[u8]) -> (r: Self) {
        let v = copy_prefix(data, data.len());
        assert(data@.take(data@.len() as int) =~= data@);
        RawYuy2VideoFrame { data: v }
    }
}

impl FromRawVideoFrame for RawYc48VideoFrame {
    open spec fn frame_len(video: VideoOutputInfo) -> nat {
        pixel_count(video) * 6
    }

    open spec fn suits(video: VideoOutputInfo) -> bool {
        true
    }

    open spec fn read_from(video: VideoOutputInfo, data: Seq<u8>, frame: Self) -> bool {
        frame.data@ == signed_words_of(data, pixel_count(video) * 3)
    }

    open spec fn format_code() -> u32 {
        BI_YC48
    }

    fn format() -> (r: u32) {
        BI_YC48
    }

    fn check(video: &VideoOutputInfo) -> (r: Result<(), String>) {
        Ok(())
    }

    fn from_raw(video: &VideoOutputInfo, data: &[u8]) -> (r: Self) {
        let n = (video.width as usize) * (video.height as usize) * 3;
        let mut out: Vec<i16> = Vec::new();
        let mut k: usize = 0;
        while k < n
            invariant
                n == pixel_count(*video) * 3,
                data@.len() == n * 2,
                k <= n,
                out@ == signed_words_of(data@, k as nat),
            decreases n - k,
        {
            out.push(word(data, k) as i16);
            k = k + 1;
            assert(out@ =~= signed_words_of(data@, k as nat));
        }
        RawYc48VideoFrame { data: out }
    }
}

impl FromRawVideoFrame for RawPa64VideoFrame {
    open spec fn frame_len(video: VideoOutputInfo) -> nat {
        pixel_count(video) * 8
    }

    open spec fn suits(video: VideoOutputInfo) -> bool {
        true
    }

    open spec fn read_from(video: VideoOutputInfo, data: Seq<u8>, frame: Self) -> bool {
        frame.data@ == words_of(data, pixel_count(video) * 4)
    }

    open spec fn format_code() -> u32 {
        BI_PA64
    }

    fn format() -> (r: u32) {
        BI_PA64
    }

    fn check(video: &VideoOutputInfo) -> (r: Result<(), String>) {
        Ok(())
    }

    fn from_raw(video: &VideoOutputInfo, data: &[u8]) -> (r: Self) {
        let n = (video.width as usize) * (video.height as usize) * 4;
        let mut out: Vec<u16> = Vec::new();
        let mut k: usize = 0;
        while k < n
            invariant
                n == pixel_count(*video) * 4,
                data@.len() == n * 2,
                k <= n,
                out@ == words_of(data@, k as nat),
            decreases n - k,
        {
            out.push(word(data, k));
            k = k + 1;
            assert(out@ =~= words_of(data@, k as nat));
        }
        RawPa64VideoFrame { data: out }
    }
}

/// The first `n` YUY2 pixel pairs of the bytes: four bytes each, as
/// `(y1, u, y2, v)`.
pub open spec fn yuy2_pairs(data: Seq<u8>, n: nat) -> Seq<(u8, u8, u8, u8)> {
    Seq::new(n, |i: int| (data[4 * i], data[4 * i + 1], data[4 * i + 2], data[4 * i + 3]))
}

impl FromRawVideoFrame for Yuy2VideoFrame {
    open spec fn frame_len(video: VideoOutputInfo) -> nat {
        pixel_count(video) * 2
    }

    open spec fn suits(video: VideoOutputInfo) -> bool {
        video.width % 2 == 0 && video.height % 2 == 0
    }

    open spec fn read_from(video: VideoOutputInfo, data: Seq<u8>, frame: Self) -> bool {
        frame.data@ == flipped_rows(
            yuy2_pairs(data, ((video.width / 2) * video.height) as nat),
            (video.width / 2) as int,
            video.height as int,
        )
    }

    open spec fn format_code() -> u32 {
        BI_YUY2
    }

    fn format() -> (r: u32) {
        BI_YUY2
    }

    /// Both sides must be even.
    fn check(video: &VideoOutputInfo) -> (r: Result<(), String>)
        ensures
            r matches Err(m) ==> m@ == "YUY2 format requires even width and height"@,
    {
        if video.width % 2 != 0 || video.height % 2 != 0 {
            let mut m = String::new();
            push_str(&mut m, "YUY2 format requires even width and height");
            return Err(m);
        }
        Ok(())
    }

    /// Reads the pixel pairs row by row, turning the rows top-down: each row
    /// holds half the width in pairs.
    fn from_raw(video: &VideoOutputInfo, data: &[u8]) -> (r: Self) {
        let pw = (video.width / 2) as usize;
        let h = video.height as usize;
        proof {
            let w = video.width as int;
            assert(w * video.height * 2 == (w / 2) * video.height * 4) by (nonlinear_arith)
                requires
                    w % 2 == 0,
                    w >= 0,
            ;
            assert((w / 2) * video.height <= w * video.height) by (nonlinear_arith)
                requires
                    w >= 0,
                    video.height >= 0,
            ;
        }
        let n = pw * h;
        let mut out: Vec<(u8, u8, u8, u8)> = Vec::new();
        let len = data.len();
        let mut i: usize = 0;
        while i < n
            invariant
                len == data@.len(),
                n == (video.width / 2) * video.height,
                data@.len() == n * 4,
                i <= n,
                out@ == yuy2_pairs(data@, i as nat),
            decreases n - i,
        {
            proof {
                assert(4 * i + 3 < data@.len()) by (nonlinear_arith)
                    requires
                        i < n,
                        data@.len() == n * 4,
                ;
            }
            out.push((data[4 * i], data[4 * i + 1], data[4 * i + 2], data[4 * i + 3]));
            i = i + 1;
            assert(out@ =~= yuy2_pairs(data@, i as nat));
        }
        flip_vertical(out.as_mut_slice(), pw, h);
        Yuy2VideoFrame { data: out }
    }
}

/// An audio sample format that can be read from the bytes the host hands
/// over.
pub trait FromRawAudioSamples: Sized + Copy {
    /// The samples that `data` holds.
    spec fn samples_of(data: Seq<u8>, count: nat) -> Seq<Self>;

    /// The bytes of one sample.
    spec fn sample_len() -> nat;

    /// The wave format code of this format.
    spec fn format_code() -> u32;

    /// The wave format code by which the host is asked for samples of this
    /// format.
    fn format() -> (r: u32)
        ensures
            r == Self::format_code(),
    ;

    /// Reads `length` samples of each of `num_channels` channels, interleaved,
    /// from their bytes.
    fn from_raw(length: usize, num_channels: u32, data: &[u8]) -> (r: Vec<Self>)
        requires
            data@.len() == length * num_channels * Self::sample_len(),
            length * num_channels * Self::sample_len() <= usize::MAX,
        ensures
            r@ == Self::samples_of(data@, (length * num_channels) as nat),
    ;
}

impl FromRawAudioSamples for i16 {
    open spec fn samples_of(data: Seq<u8>, count: nat) -> Seq<i16> {
        signed_words_of(data, count)
    }

    open spec fn sample_len() -> nat {
        2
    }

    open spec fn format_code() -> u32 {
        WAVE_FORMAT_PCM as u32
    }

    fn format() -> (r: u32) {
        WAVE_FORMAT_PCM as u32
    }

    fn from_raw(length: usize, num_channels: u32, data: &[u8]) -> (r: Vec<i16>) {
        let n = length * (num_channels as usize);
        let len = data.len();
        let mut out: Vec<i16> = Vec::new();
        let mut k: usize = 0;
        while k < n
            invariant
                len == data@.len(),
                n == length * num_channels,
                data@.len() == n * 2,
                k <= n,
                out@ == signed_words_of(data@, k as nat),
            decreases n - k,
        {
            out.push(word(data, k) as i16);
            k = k + 1;
            assert(out@ =~= signed_words_of(data@, k as nat));
        }
        out
    }
}

} // verus!
