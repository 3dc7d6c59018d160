//! What an output plugin is told about the video and audio it writes, and the
//! walks over frames and sample blocks.

use vstd::prelude::*;
use crate::common::rational::{fraction_parts_ok, new_fraction, reduced_fraction};
use crate::common::{FileFilter, Rational32};

verus! {

/// What an output plugin is.
#[derive(Debug, Clone)]
pub struct OutputPluginTable {
    /// The plugin's name.
    pub name: String,
    /// The information text shown in the plugin information dialog.
    pub information: String,
    /// What the plugin writes.
    pub output_type: OutputType,
    /// The file-dialog filters of the output dialog.
    pub file_filters: Vec<FileFilter>,
    /// Whether the plugin has a settings dialog.
    pub can_config: bool,
}

/// What an output plugin writes.
#[derive(Debug, Clone, Copy, PartialEq, Eq, Structural)]
pub enum OutputType {
    /// Video only.
    Video,
    /// Audio only.
    Audio,
    /// Video and audio.
    Both,
}

/// The host bits of an output type.
pub open spec fn output_type_bits(t: OutputType) -> i32 {
    match t {
        OutputType::Video => 1,
        OutputType::Audio => 2,
        OutputType::Both => 3,
    }
}

impl OutputType {
    /// The host bits: video 1, audio 2, both 3.
    pub fn to_bits(&self) -> (r: i32)
        ensures
            r == output_type_bits(*self),
    {
        match self {
            OutputType::Video => 1,
            OutputType::Audio => 2,
            OutputType::Both => 3,
        }
    }
}

/// Output types are told by bits: video 1, audio 2, and both the two of them
/// together.
pub proof fn lemma_output_type_bits()
    ensures
        output_type_bits(OutputType::Video) == 1,
        output_type_bits(OutputType::Audio) == 2,
        output_type_bits(OutputType::Both) == output_type_bits(OutputType::Video)
            + output_type_bits(OutputType::Audio),
{
}

/// The video to write.
#[derive(Debug, Clone, Copy)]
pub struct VideoOutputInfo {
    /// The width in pixels.
    pub width: u32,
    /// The height in pixels.
    pub height: u32,
    /// The frame rate.
    pub fps: Rational32,
    /// The number of frames.
    pub num_frames: u32,
}

/// The audio to write.
#[derive(Debug, Clone, Copy)]
pub struct AudioOutputInfo {
    /// The sample rate in hertz.
    pub sample_rate: u32,
    /// The number of samples.
    pub num_samples: u32,
    /// The number of channels.
    pub num_channels: u32,
}

/// The bit of the host's output flags that says that video is written.
pub const OUTPUT_FLAG_VIDEO: i32 = 1;

/// The bit of the host's output flags that says that audio is written.
pub const OUTPUT_FLAG_AUDIO: i32 = 2;

/// What the host tells an output plugin to write, in its own numbers.
#[derive(Debug, Clone, Copy)]
pub struct RawOutputInfo {
    /// Which of video and audio are written.
    pub flag: i32,
    /// The width in pixels.
    pub w: i32,
    /// The height in pixels.
    pub h: i32,
    /// The numerator of the frame rate.
    pub rate: i32,
    /// The denominator of the frame rate.
    pub scale: i32,
    /// The number of frames.
    pub n: i32,
    /// The sample rate in hertz.
    pub audio_rate: i32,
    /// The number of samples.
    pub audio_n: i32,
    /// The number of channels.
    pub audio_ch: i32,
}

/// The video that the host's numbers describe, if the video flag is set.
pub open spec fn raw_video(raw: RawOutputInfo) -> Option<VideoOutputInfo> {
    if raw.flag & OUTPUT_FLAG_VIDEO != 0 {
        Some(
            VideoOutputInfo {
                width: raw.w as u32,
                height: raw.h as u32,
                fps: reduced_fraction(raw.rate, raw.scale),
                num_frames: raw.n as u32,
            },
        )
    } else {
        None
    }
}

/// The audio that the host's numbers describe, if the audio flag is set.
pub open spec fn raw_audio(raw: RawOutputInfo) -> Option<AudioOutputInfo> {
    if raw.flag & OUTPUT_FLAG_AUDIO != 0 {
        Some(
            AudioOutputInfo {
                sample_rate: raw.audio_rate as u32,
                num_samples: raw.audio_n as u32,
                num_channels: raw.audio_ch as u32,
            },
        )
    } else {
        None
    }
}

/// The video and the audio that the host tells an output plugin to write:
/// each is there when its flag is set, with its numbers taken as they are
/// (as `as` converts) and the frame rate the reduced fraction `rate / scale`.
pub fn output_media_from_raw(raw: &RawOutputInfo) -> (r: (
    Option<VideoOutputInfo>,
    Option<AudioOutputInfo>,
))
    requires
        raw.flag & OUTPUT_FLAG_VIDEO != 0 ==> fraction_parts_ok(raw.rate, raw.scale),
    ensures
        r.0 == raw_video(*raw),
        r.1 == raw_audio(*raw),
{
    let video = if raw.flag & OUTPUT_FLAG_VIDEO != 0 {
        Some(
            VideoOutputInfo {
                width: raw.w as u32,
                height: raw.h as u32,
                fps: new_fraction(raw.rate, raw.scale),
                num_frames: raw.n as u32,
            },
        )
    } else {
        None
    };
    let audio = if raw.flag & OUTPUT_FLAG_AUDIO != 0 {
        Some(
            AudioOutputInfo {
                sample_rate: raw.audio_rate as u32,
                num_samples: raw.audio_n as u32,
                num_channels: raw.audio_ch as u32,
            },
        )
    } else {
        None
    };
    (video, audio)
}

/// Whether a frame number can be asked of the host: from 0 to below the
/// number of frames (read as a signed number).
pub open spec fn frame_in_range(video: VideoOutputInfo, frame: i32) -> bool {
    0 <= frame < (video.num_frames as i32)
}

impl VideoOutputInfo {
    /// Whether a frame number can be asked of the host.
    pub fn has_frame(&self, frame: i32) -> (r: bool)
        ensures
            r == frame_in_range(*self, frame),
    {
        !(frame < 0 || frame >= self.num_frames as i32)
    }
}

/// How many groups of `c` items `n` items make, the last one maybe short.
pub open spec fn group_count(n: nat, c: nat) -> nat {
    n / c + (if n % c == 0 {
        0nat
    } else {
        1nat
    })
}

/// The first sample of each group of `num_channels` interleaved samples.
pub open spec fn first_channel<T>(samples: Seq<T>, num_channels: nat) -> Seq<T> {
    Seq::new(group_count(samples.len(), num_channels), |i: int| samples[i * num_channels])
}

proof fn lemma_group_index(k: nat, n: nat, c: nat)
    requires
        c > 0,
        k < group_count(n, c),
    ensures
        k * c < n,
{
    let q = n / c;
    let r = n % c;
    assert(n == q * c + r && 0 <= r < c) by (nonlinear_arith)
        requires
            c > 0,
            q == n / c,
            r == n % c,
    ;
    if r == 0 {
        assert(k * c < n) by (nonlinear_arith)
            requires
                k < q,
                n == q * c + r,
                r == 0,
                c > 0,
        ;
    } else {
        assert(k * c < n) by (nonlinear_arith)
            requires
                k <= q,
                n == q * c + r,
                r > 0,
                c > 0,
        ;
    }
}

/// Samples of interleaved channels as mono: unchanged when there is one
/// channel, else the first sample of each group of `num_channels` samples
/// (the last group may be short).
pub fn mono_samples<T: Copy>(samples: Vec<T>, num_channels: u32) -> (r: Vec<T>)
    requires
        num_channels > 0,
    ensures
        num_channels == 1 ==> r@ == samples@,
        num_channels != 1 ==> r@ == first_channel(samples@, num_channels as nat),
{
    if num_channels == 1 {
        return samples;
    }
    let c = num_channels as usize;
    let n = samples.len();
    let q = n / c;
    proof {
        assert(q < n || n == 0) by (nonlinear_arith)
            requires
                c > 1,
                q == n / c,
        ;
    }
    let count: usize = q + if n % c == 0 {
        0
    } else {
        1
    };
    let mut out: Vec<T> = Vec::new();
    let mut k: usize = 0;
    while k < count
        invariant
            n == samples@.len(),
            c == num_channels,
            c > 1,
            count == group_count(n as nat, c as nat),
            k <= count,
            out@.len() == k,
            forall|j: int| 0 <= j < k ==> #[trigger] out@[j] == samples@[j * c],
        decreases count - k,
    {
        proof {
            lemma_group_index(k as nat, n as nat, c as nat);
        }
        out.push(samples[k * c]);
        k = k + 1;
    }
    assert(out@ =~= first_channel(samples@, num_channels as nat));
    out
}

/// Samples as stereo pairs: interleaved samples of two channels are paired,
/// and the samples of one channel are duplicated into both; `None` for any
/// other number of channels.
pub fn stereo_samples<T: Copy>(samples: Vec<T>, num_channels: u32) -> (r: Option<Vec<(T, T)>>)
    requires
        num_channels == 2 ==> samples@.len() % 2 == 0,
    ensures
        r is Some <==> num_channels == 1 || num_channels == 2,
        num_channels == 2 ==> (r matches Some(v) && v@.len() == samples@.len() / 2 && forall|i: int|
            0 <= i < v@.len() ==> #[trigger] v@[i] == (samples@[2 * i], samples@[2 * i + 1])),
        num_channels == 1 ==> (r matches Some(v) && v@.len() == samples@.len() && forall|i: int|
            0 <= i < v@.len() ==> #[trigger] v@[i] == (samples@[i], samples@[i])),
{
    let n = samples.len();
    if num_channels == 1 {
        let mut out: Vec<(T, T)> = Vec::new();
        let mut k: usize = 0;
        while k < n
            invariant
                n == samples@.len(),
                k <= n,
                out@.len() == k,
                forall|j: int| 0 <= j < k ==> #[trigger] out@[j] == (samples@[j], samples@[j]),
            decreases n - k,
        {
            out.push((samples[k], samples[k]));
            k = k + 1;
        }
        return Some(out);
    }
    if num_channels != 2 {
        return None;
    }
    let half = n / 2;
    let mut out: Vec<(T, T)> = Vec::new();
    let mut k: usize = 0;
    while k < half
        invariant
            n == samples@.len(),
            n % 2 == 0,
            half == n / 2,
            k <= half,
            out@.len() == k,
            forall|j: int|
                0 <= j < k ==> #[trigger] out@[j] == (samples@[2 * j], samples@[2 * j + 1]),
        decreases half - k,
    {
        out.push((samples[2 * k], samples[2 * k + 1]));
        k = k + 1;
    }
    Some(out)
}

/// The walk over the frames of the video to write: frames are asked for in
/// order, from 0 to below the number of frames, and none when the frame
/// format does not suit the video.
pub struct FrameWalk {
    current_frame: i32,
    total_frames: i32,
    format_suits: bool,
}

impl FrameWalk {
    /// The next frame to ask for.
    pub closed spec fn current(&self) -> i32 {
        self.current_frame
    }

    /// The number of frames.
    pub closed spec fn total(&self) -> i32 {
        self.total_frames
    }

    /// Whether the frame format suits the video.
    pub closed spec fn suits(&self) -> bool {
        self.format_suits
    }

    /// A walk over the frames of `video` (none when there is no video), in a
    /// format that suits the video or not.
    pub fn new(video: Option<&VideoOutputInfo>, format_suits: bool) -> (r: Self)
        ensures
            r.current() == 0,
            r.total() == (match video {
                Some(v) => v.num_frames as i32,
                None => 0,
            }),
            r.suits() == (video is Some && format_suits),
    {
        match video {
            Some(v) => FrameWalk {
                current_frame: 0,
                total_frames: v.num_frames as i32,
                format_suits,
            },
            None => FrameWalk { current_frame: 0, total_frames: 0, format_suits: false },
        }
    }

    /// The frame to ask for next, if the walk is not over.
    pub fn next_frame(&self) -> (r: Option<i32>)
        ensures
            r is Some <==> (self.suits() && self.current() < self.total()),
            r matches Some(f) ==> f == self.current(),
    {
        if !self.format_suits || self.current_frame >= self.total_frames {
            None
        } else {
            Some(self.current_frame)
        }
    }

    /// Records that the frame asked for was read.
    pub fn advance(&mut self)
        requires
            old(self).current() < old(self).total(),
        ensures
            final(self).current() == old(self).current() + 1,
            final(self).total() == old(self).total(),
            final(self).suits() == old(self).suits(),
    {
        self.current_frame = self.current_frame + 1;
    }
}

/// The walk over the samples of the audio to write, in blocks of at most a
/// given length.
pub struct SampleWalk {
    length: i32,
    total_length: i32,
    read: i32,
}

impl SampleWalk {
    /// Never less than nothing has been read.
    #[verifier::type_invariant]
    spec fn read_not_negative(&self) -> bool {
        self.read >= 0
    }

    /// The most samples asked for at once.
    pub closed spec fn block(&self) -> i32 {
        self.length
    }

    /// The number of samples.
    pub closed spec fn total(&self) -> i32 {
        self.total_length
    }

    /// How many samples have been read.
    pub closed spec fn done(&self) -> i32 {
        self.read
    }

    /// A walk over the samples of `audio` (none when there is no audio), in
    /// blocks of at most `length` samples.
    pub fn new(audio: Option<&AudioOutputInfo>, length: i32) -> (r: Self)
        ensures
            r.block() == length,
            r.done() == 0,
            r.total() == (match audio {
                Some(a) => a.num_samples as i32,
                None => 0,
            }),
    {
        let total: i32 = match audio {
            Some(a) => a.num_samples as i32,
            None => 0,
        };
        SampleWalk { length, total_length: total, read: 0 }
    }

    /// The first sample and the length of the next block to ask for, if the
    /// walk is not over: the block runs to the end or is `length` long,
    /// whichever is shorter.
    pub fn next_block(&self) -> (r: Option<(i32, i32)>)
        ensures
            r is Some <==> self.done() < self.total(),
            r matches Some(b) ==> b.0 == self.done() && b.1 == (if self.block() < self.total()
                - self.done() {
                self.block() as int
            } else {
                self.total() - self.done()
            }),
    {
        proof {
            use_type_invariant(self);
        }
        if self.read >= self.total_length {
            return None;
        }
        let rest: i32 = self.total_length - self.read;
        let n: i32 = if self.length < rest {
            self.length
        } else {
            rest
        };
        Some((self.read, n))
    }

    /// Records that `count` samples were read; gives the first sample of the
    /// block as an index.
    pub fn advance(&mut self, count: usize) -> (start: usize)
        requires
            old(self).done() + count <= i32::MAX,
        ensures
            start == old(self).done(),
            final(self).done() == old(self).done() + count,
            final(self).total() == old(self).total(),
            final(self).block() == old(self).block(),
    {
        proof {
            use_type_invariant(&*self);
        }
        let start = self.read as usize;
        self.read = self.read + count as i32;
        start
    }
}

} // verus!
