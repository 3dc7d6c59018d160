//! What an input plugin reports about its media, and the bitmap and wave
//! format headers that the host reads from it.

use vstd::prelude::*;
use crate::common::{FileFilter, Rational32};

verus! {

/// The bitmap compression code of uncompressed RGB.
pub const BI_RGB: u32 = 0;
/// The bitmap compression code of YUY2 (the characters `YUY2`).
pub const BI_YUY2: u32 = 0x32595559;
/// The bitmap compression code of PA64 (the characters `PA64`).
pub const BI_PA64: u32 = 0x34364150;
/// The bitmap compression code of HF64 (the characters `HF64`).
pub const BI_HF64: u32 = 0x34364648;
/// The bitmap compression code of YC48 (the characters `YC48`).
pub const BI_YC48: u32 = 0x38344359;
/// The wave format code of integer PCM.
pub const WAVE_FORMAT_PCM: u16 = 1;
/// The wave format code of IEEE floating-point samples.
pub const WAVE_FORMAT_IEEE_FLOAT: u16 = 3;
/// The size in bytes of a bitmap information header.
pub const BITMAP_INFO_HEADER_SIZE: u32 = 40;

/// What an input plugin is.
#[derive(Debug, Clone)]
pub struct InputPluginTable {
    /// The plugin's name.
    pub name: String,
    /// The information text shown in the plugin information dialog.
    pub information: String,
    /// What the plugin reads.
    pub input_type: InputType,
    /// Whether images and audio can be read at the same time.
    pub concurrent: bool,
    /// The file-dialog filters of the files the plugin opens.
    pub file_filters: Vec<FileFilter>,
    /// Whether the plugin has a settings dialog.
    pub can_config: bool,
}

/// The video or image that an input provides.
#[derive(Debug, Clone, Copy)]
pub struct VideoInputInfo {
    /// The frame rate.
    pub fps: Rational32,
    /// The number of frames; 1 for an image.
    pub num_frames: u32,
    /// Whether the plugin computes frame numbers from times itself.
    pub manual_frame_index: bool,
    /// The image width.
    pub width: u32,
    /// The image height.
    pub height: u32,
    /// The pixel format.
    pub format: InputPixelFormat,
}

/// The pixel format of the images an input provides.
#[derive(Debug, Clone, Copy, PartialEq, Eq, Hash, Structural)]
pub enum InputPixelFormat {
    /// 8-bit BGR, rows from the bottom up.
    Bgr,
    /// 8-bit BGRA, rows from the bottom up.
    Bgra,
    /// YUY2.
    Yuy2,
    /// 16-bit RGBA with premultiplied alpha.
    Pa64,
    /// YC48.
    Yc48,
    /// 16-bit floating-point RGBA with premultiplied alpha.
    Hf64,
}

/// The audio that an input provides.
#[derive(Debug, Clone)]
pub struct AudioInputInfo {
    /// The sample rate.
    pub sample_rate: u32,
    /// The number of samples.
    pub num_samples: u32,
    /// The number of channels.
    pub channels: u16,
    /// The sample format.
    pub format: AudioFormat,
}

/// The sample format of the audio an input provides.
#[derive(Debug, Clone, Copy, PartialEq, Eq, Structural)]
pub enum AudioFormat {
    /// 16-bit integer PCM.
    Pcm16,
    /// 32-bit IEEE floating point.
    IeeeFloat32,
}

/// What an input provides: video, audio, or both.
#[derive(Debug, Clone)]
pub struct InputInfo {
    /// The video, if any.
    pub video: Option<VideoInputInfo>,
    /// The audio, if any.
    pub audio: Option<AudioInputInfo>,
}

/// What an input plugin reads.
#[derive(Debug, Clone, Copy, PartialEq, Eq, Structural)]
pub enum InputType {
    /// Video only.
    Video,
    /// Audio only.
    Audio,
    /// Video and audio.
    Both,
}

/// The bytes that one pixel of a format takes.
pub open spec fn pixel_bytes(f: InputPixelFormat) -> nat {
    match f {
        InputPixelFormat::Bgr => 3,
        InputPixelFormat::Bgra => 4,
        InputPixelFormat::Yuy2 => 2,
        InputPixelFormat::Pa64 => 8,
        InputPixelFormat::Hf64 => 8,
        InputPixelFormat::Yc48 => 6,
    }
}

/// The bytes that one sample of a format takes.
pub open spec fn sample_bytes(f: AudioFormat) -> nat {
    match f {
        AudioFormat::IeeeFloat32 => 4,
        AudioFormat::Pcm16 => 2,
    }
}

/// The bitmap compression code of a pixel format.
pub open spec fn compression_code(f: InputPixelFormat) -> u32 {
    match f {
        InputPixelFormat::Bgr => BI_RGB,
        InputPixelFormat::Bgra => BI_RGB,
        InputPixelFormat::Yuy2 => BI_YUY2,
        InputPixelFormat::Pa64 => BI_PA64,
        InputPixelFormat::Hf64 => BI_HF64,
        InputPixelFormat::Yc48 => BI_YC48,
    }
}

/// The wave format code of a sample format.
pub open spec fn wave_format_code(f: AudioFormat) -> u16 {
    match f {
        AudioFormat::IeeeFloat32 => WAVE_FORMAT_IEEE_FLOAT,
        AudioFormat::Pcm16 => WAVE_FORMAT_PCM,
    }
}

impl InputPixelFormat {
    /// The bytes that one pixel takes.
    pub fn bytes_count_per_pixel(&self) -> (r: usize)
        ensures
            r == pixel_bytes(*self),
    {
        match self {
            InputPixelFormat::Bgr => 3,
            InputPixelFormat::Bgra => 4,
            InputPixelFormat::Yuy2 => 2,
            InputPixelFormat::Pa64 => 8,
            InputPixelFormat::Hf64 => 8,
            InputPixelFormat::Yc48 => 6,
        }
    }

    /// The bitmap compression code of the format.
    pub fn compression(&self) -> (r: u32)
        ensures
            r == compression_code(*self),
    {
        match self {
            InputPixelFormat::Bgr | InputPixelFormat::Bgra => BI_RGB,
            InputPixelFormat::Yuy2 => BI_YUY2,
            InputPixelFormat::Pa64 => BI_PA64,
            InputPixelFormat::Hf64 => BI_HF64,
            InputPixelFormat::Yc48 => BI_YC48,
        }
    }
}

impl AudioFormat {
    /// The bytes that one sample takes.
    pub fn bytes_per_sample(&self) -> (r: usize)
        ensures
            r == sample_bytes(*self),
    {
        match self {
            AudioFormat::IeeeFloat32 => 4,
            AudioFormat::Pcm16 => 2,
        }
    }

    /// The wave format code of the format.
    pub fn format_tag(&self) -> (r: u16)
        ensures
            r == wave_format_code(*self),
    {
        match self {
            AudioFormat::IeeeFloat32 => WAVE_FORMAT_IEEE_FLOAT,
            AudioFormat::Pcm16 => WAVE_FORMAT_PCM,
        }
    }
}

/// The host bits of an input type.
pub open spec fn input_type_bits(t: InputType) -> i32 {
    match t {
        InputType::Video => 1,
        InputType::Audio => 2,
        InputType::Both => 3,
    }
}

impl InputType {
    /// The host bits: video 1, audio 2, both 3.
    pub fn to_bits(&self) -> (r: i32)
        ensures
            r == input_type_bits(*self),
    {
        match self {
            InputType::Video => 1,
            InputType::Audio => 2,
            InputType::Both => 3,
        }
    }
}

/// A bitmap information header, as the host reads the format of an input's
/// images.
#[derive(Debug, Clone, Copy, PartialEq, Eq)]
pub struct BitmapInfoHeader {
    /// The size of the header.
    pub size: u32,
    /// The width.
    pub width: i32,
    /// The height; positive, so rows run from the bottom up.
    pub height: i32,
    /// The number of planes, 1.
    pub planes: u16,
    /// The bits per pixel.
    pub bit_count: u16,
    /// The compression code.
    pub compression: u32,
    /// The bytes of one image.
    pub size_image: u32,
    /// Horizontal resolution, unused.
    pub x_pels_per_meter: i32,
    /// Vertical resolution, unused.
    pub y_pels_per_meter: i32,
    /// Colours used, unused.
    pub clr_used: u32,
    /// Important colours, unused.
    pub clr_important: u32,
}

/// A wave format header, as the host reads the format of an input's audio.
#[derive(Debug, Clone, Copy, PartialEq, Eq)]
pub struct WaveFormatEx {
    /// The format code.
    pub format_tag: u16,
    /// The number of channels.
    pub channels: u16,
    /// The sample rate.
    pub samples_per_sec: u32,
    /// The bytes per second.
    pub avg_bytes_per_sec: u32,
    /// The bytes of one sample of all channels.
    pub block_align: u16,
    /// The bits of one sample.
    pub bits_per_sample: u16,
    /// The size of extra data, 0.
    pub cb_size: u16,
}

impl VideoInputInfo {
    /// The bitmap header of the images.
    pub fn into_raw(self) -> (h: BitmapInfoHeader)
        requires
            self.width * self.height * pixel_bytes(self.format) <= u32::MAX,
        ensures
            h.size == BITMAP_INFO_HEADER_SIZE,
            h.width == self.width as i32,
            h.height == self.height as i32,
            h.planes == 1,
            h.bit_count == pixel_bytes(self.format) * 8,
            h.compression == compression_code(self.format),
            h.size_image == self.width * self.height * pixel_bytes(self.format),
            h.x_pels_per_meter == 0,
            h.y_pels_per_meter == 0,
            h.clr_used == 0,
            h.clr_important == 0,
    {
        let bpp = self.format.bytes_count_per_pixel();
        let bpp32: u32 = bpp as u32;
        proof {
            assert(self.width * self.height <= self.width * self.height * bpp32)
                by (nonlinear_arith)
                requires
                    bpp32 >= 1,
            ;
        }
        BitmapInfoHeader {
            size: BITMAP_INFO_HEADER_SIZE,
            width: self.width as i32,
            height: self.height as i32,
            planes: 1,
            bit_count: (bpp * 8) as u16,
            compression: self.format.compression(),
            size_image: self.width * self.height * bpp32,
            x_pels_per_meter: 0,
            y_pels_per_meter: 0,
            clr_used: 0,
            clr_important: 0,
        }
    }

    /// The bytes of one frame: width times height times the bytes of a pixel.
    pub fn frame_byte_len(&self) -> (r: usize)
        requires
            self.width * self.height * pixel_bytes(self.format) <= usize::MAX,
        ensures
            r == self.width * self.height * pixel_bytes(self.format),
    {
        let bpp = self.format.bytes_count_per_pixel();
        let w = self.width as usize;
        let h = self.height as usize;
        proof {
            assert(w * h <= w * h * bpp) by (nonlinear_arith)
                requires
                    bpp >= 1,
            ;
        }
        w * h * bpp
    }

    /// The size that the host is told for a frame of 8-bit RGBA: four bytes
    /// per pixel.
    pub fn rgba_format_size(&self) -> (r: i32)
        requires
            4 * self.width * self.height <= u32::MAX,
        ensures
            r == (4 * self.width * self.height) as i32,
    {
        let w = self.width;
        let h = self.height;
        if h == 0 {
            proof {
                assert(4 * w * h == 0) by (nonlinear_arith)
                    requires
                        h == 0,
                ;
            }
            return 0;
        }
        proof {
            assert(4 * w <= 4 * w * h) by (nonlinear_arith)
                requires
                    h > 0,
            ;
        }
        (4 * w * h) as i32
    }
}

impl AudioInputInfo {
    /// The wave format header of the audio.
    pub fn into_raw(self) -> (w: WaveFormatEx)
        requires
            self.sample_rate * self.channels * sample_bytes(self.format) <= u32::MAX,
            self.channels * sample_bytes(self.format) <= u16::MAX,
        ensures
            w.format_tag == wave_format_code(self.format),
            w.channels == self.channels,
            w.samples_per_sec == self.sample_rate,
            w.avg_bytes_per_sec == self.sample_rate * self.channels * sample_bytes(self.format),
            w.block_align == self.channels * sample_bytes(self.format),
            w.bits_per_sample == sample_bytes(self.format) * 8,
            w.cb_size == 0,
    {
        let bps = self.format.bytes_per_sample();
        let bps32: u32 = bps as u32;
        let bps16: u16 = bps as u16;
        let ch32: u32 = self.channels as u32;
        proof {
            assert(self.sample_rate * ch32 <= self.sample_rate * ch32 * bps32) by (nonlinear_arith)
                requires
                    bps32 >= 1,
            ;
        }
        WaveFormatEx {
            format_tag: self.format.format_tag(),
            channels: self.channels,
            samples_per_sec: self.sample_rate,
            avg_bytes_per_sec: self.sample_rate * ch32 * bps32,
            block_align: self.channels * bps16,
            bits_per_sample: bps16 * 8,
            cb_size: 0,
        }
    }

    /// The bytes of `length` samples of every channel.
    pub fn sample_byte_len(&self, length: usize) -> (r: usize)
        requires
            length * self.channels * sample_bytes(self.format) <= usize::MAX,
        ensures
            r == length * self.channels * sample_bytes(self.format),
    {
        let bps = self.format.bytes_per_sample();
        let ch = self.channels as usize;
        proof {
            assert(length * ch <= length * ch * bps) by (nonlinear_arith)
                requires
                    bps >= 1,
            ;
        }
        length * ch * bps
    }
}

impl InputInfo {
    /// The number of video and of audio tracks: one of each that is present.
    pub fn track_count(&self) -> (r: (u32, u32))
        ensures
            r.0 == (if self.video is Some { 1u32 } else { 0u32 }),
            r.1 == (if self.audio is Some { 1u32 } else { 0u32 }),
    {
        let v: u32 = match &self.video {
            Some(_) => 1,
            None => 0,
        };
        let a: u32 = match &self.audio {
            Some(_) => 1,
            None => 0,
        };
        (v, a)
    }
}

/// The four-character code of a name: its characters, first in the lowest
/// byte, as a little-endian 32-bit number.
pub open spec fn fourcc(a: char, b: char, c: char, d: char) -> int {
    a as int + b as int * 0x100 + c as int * 0x10000 + d as int * 0x1000000
}

/// Each pixel format is announced by the code of its own name: YUY2 as
/// `YUY2`, PA64 as `PA64`, HF64 as `HF64` and YC48 as `YC48`, while BGR and
/// BGRA are plain RGB (code 0). A pixel takes 3, 4, 2, 8, 8 and 6 bytes in
/// BGR, BGRA, YUY2, PA64, HF64 and YC48; 16-bit PCM is wave format 1 with
/// 2-byte samples, and 32-bit float is wave format 3 with 4-byte samples.
/// Input types are told by bits: video 1, audio 2, both of them 3.
pub proof fn lemma_format_codes()
    ensures
        compression_code(InputPixelFormat::Yuy2) == fourcc('Y', 'U', 'Y', '2'),
        compression_code(InputPixelFormat::Pa64) == fourcc('P', 'A', '6', '4'),
        compression_code(InputPixelFormat::Hf64) == fourcc('H', 'F', '6', '4'),
        compression_code(InputPixelFormat::Yc48) == fourcc('Y', 'C', '4', '8'),
        compression_code(InputPixelFormat::Bgr) == 0,
        compression_code(InputPixelFormat::Bgra) == 0,
        pixel_bytes(InputPixelFormat::Bgr) == 3,
        pixel_bytes(InputPixelFormat::Bgra) == 4,
        pixel_bytes(InputPixelFormat::Yuy2) == 2,
        pixel_bytes(InputPixelFormat::Pa64) == 8,
        pixel_bytes(InputPixelFormat::Hf64) == 8,
        pixel_bytes(InputPixelFormat::Yc48) == 6,
        wave_format_code(AudioFormat::Pcm16) == 1,
        wave_format_code(AudioFormat::IeeeFloat32) == 3,
        sample_bytes(AudioFormat::Pcm16) == 2,
        sample_bytes(AudioFormat::IeeeFloat32) == 4,
        input_type_bits(InputType::Video) == 1,
        input_type_bits(InputType::Audio) == 2,
        input_type_bits(InputType::Both) == input_type_bits(InputType::Video)
            + input_type_bits(InputType::Audio),
{
}

} // verus!
