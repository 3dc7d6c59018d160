//! What a filter sees while it runs: the scene, the object's image and audio
//! information, pixel formats and drawing modes, and the errors of its calls.

use vstd::prelude::*;
use crate::common::wide::is_nul_error_for;
use crate::common::{CWString, NullByteError, Rational32};
use crate::filter::flags::FilterPluginFlags;
use crate::common::rational::{fraction_parts_ok, new_fraction, reduced_fraction};
use crate::filter::resource::{
    readable_text, shader_text, ReadableImageResource, ShaderTargetResource,
};
use crate::text::{push_decimal, push_str, utf16_encode};

verus! {

/// What a filter plugin is: its names, its flags and its setting items.
///
/// The setting items are of the type `C` that the plugin's configuration uses.
#[derive(Debug, Clone)]
pub struct FilterPluginTable<C> {
    /// The plugin's name.
    pub name: String,
    /// The initial label; `None` gives the default label.
    pub label: Option<String>,
    /// The information text shown in the plugin information dialog.
    pub information: String,
    /// What the plugin supports.
    pub flags: FilterPluginFlags,
    /// The setting items.
    pub config_items: Vec<C>,
}

/// The scene a filter runs in.
#[derive(Debug, Clone, Copy)]
pub struct SceneInfo {
    /// The width of the scene.
    pub width: u32,
    /// The height of the scene.
    pub height: u32,
    /// The frame rate.
    pub frame_rate: Rational32,
    /// The sample rate.
    pub sample_rate: u32,
}

/// The image of the object that an image filter works on.
#[derive(Debug, Clone, Copy)]
pub struct VideoObjectInfo {
    /// The current width of the image.
    pub width: u32,
    /// The current height of the image.
    pub height: u32,
    /// The index of the current object among several.
    pub index: u32,
    /// How many objects there are: `None` when unknown, `Some(1)` for one.
    pub num: Option<u32>,
}

/// The audio of the object that an audio filter works on.
#[derive(Debug, Clone, Copy)]
pub struct AudioObjectInfo {
    /// The current sample position.
    pub sample_index: u64,
    /// The total number of samples.
    pub sample_total: u64,
    /// The number of samples in the current block.
    pub sample_num: u32,
    /// The number of channels, usually 2.
    pub channel_num: u32,
}

/// The scene as the host reports it, in its own numbers.
#[derive(Debug, Clone, Copy)]
pub struct RawSceneInfo {
    /// The width of the scene.
    pub width: i32,
    /// The height of the scene.
    pub height: i32,
    /// The numerator of the frame rate.
    pub rate: i32,
    /// The denominator of the frame rate.
    pub scale: i32,
    /// The sample rate.
    pub sample_rate: i32,
}

impl SceneInfo {
    /// The scene that the host reports: each number is taken as it is (as
    /// `as` converts), and the frame rate is the reduced fraction
    /// `rate / scale`.
    pub fn from_raw(raw: &RawSceneInfo) -> (r: Self)
        requires
            fraction_parts_ok(raw.rate, raw.scale),
        ensures
            r.width == raw.width as u32,
            r.height == raw.height as u32,
            r.frame_rate == reduced_fraction(raw.rate, raw.scale),
            r.sample_rate == raw.sample_rate as u32,
    {
        SceneInfo {
            width: raw.width as u32,
            height: raw.height as u32,
            frame_rate: new_fraction(raw.rate, raw.scale),
            sample_rate: raw.sample_rate as u32,
        }
    }
}

/// The numbers of the host's object information that the image and the
/// audio of the object are read from.
#[derive(Debug, Clone, Copy)]
pub struct RawObjectInfo {
    /// The current width of the image.
    pub width: i32,
    /// The current height of the image.
    pub height: i32,
    /// The index of the current object among several.
    pub index: i32,
    /// How many objects there are; 0 when unknown.
    pub num: i32,
    /// The current sample position.
    pub sample_index: i64,
    /// The total number of samples.
    pub sample_total: i64,
    /// The number of samples in the current block.
    pub sample_num: i32,
    /// The number of channels.
    pub channel_num: i32,
}

impl VideoObjectInfo {
    /// The image of the object that the host reports: each number is taken
    /// as it is (as `as` converts), and a count of 0 objects means that the
    /// count is unknown.
    pub fn from_raw(raw: &RawObjectInfo) -> (r: Self)
        ensures
            r.width == raw.width as u32,
            r.height == raw.height as u32,
            r.index == raw.index as u32,
            r.num == (if raw.num == 0 {
                None
            } else {
                Some(raw.num as u32)
            }),
    {
        VideoObjectInfo {
            width: raw.width as u32,
            height: raw.height as u32,
            index: raw.index as u32,
            num: if raw.num == 0 {
                None
            } else {
                Some(raw.num as u32)
            },
        }
    }
}

impl AudioObjectInfo {
    /// The audio of the object that the host reports, each number taken as
    /// it is (as `as` converts).
    pub fn from_raw(raw: &RawObjectInfo) -> (r: Self)
        ensures
            r.sample_index == raw.sample_index as u64,
            r.sample_total == raw.sample_total as u64,
            r.sample_num == raw.sample_num as u32,
            r.channel_num == raw.channel_num as u32,
    {
        AudioObjectInfo {
            sample_index: raw.sample_index as u64,
            sample_total: raw.sample_total as u64,
            sample_num: raw.sample_num as u32,
            channel_num: raw.channel_num as u32,
        }
    }
}

/// An audio channel: left, right, or another by its number.
#[derive(Debug, Clone, Copy, PartialEq, Eq, Structural)]
pub enum AudioChannel {
    /// The left channel, number 0.
    Left,
    /// The right channel, number 1.
    Right,
    /// Another channel, by number.
    Any(i32),
}

/// The channel of a channel number.
pub open spec fn audio_channel_of(v: i32) -> AudioChannel {
    if v == 0 {
        AudioChannel::Left
    } else if v == 1 {
        AudioChannel::Right
    } else {
        AudioChannel::Any(v)
    }
}

/// The number of a channel.
pub open spec fn audio_channel_number(c: AudioChannel) -> i32 {
    match c {
        AudioChannel::Left => 0,
        AudioChannel::Right => 1,
        AudioChannel::Any(v) => v,
    }
}

impl From<i32> for AudioChannel {
    fn from(value: i32) -> (r: Self) {
        match value {
            0 => AudioChannel::Left,
            1 => AudioChannel::Right,
            v => AudioChannel::Any(v),
        }
    }
}

impl vstd::std_specs::convert::FromSpecImpl<i32> for AudioChannel {
    open spec fn obeys_from_spec() -> bool {
        true
    }

    open spec fn from_spec(v: i32) -> Self {
        audio_channel_of(v)
    }
}

impl From<AudioChannel> for i32 {
    fn from(value: AudioChannel) -> (r: i32) {
        match value {
            AudioChannel::Left => 0,
            AudioChannel::Right => 1,
            AudioChannel::Any(v) => v,
        }
    }
}

impl vstd::std_specs::convert::FromSpecImpl<AudioChannel> for i32 {
    open spec fn obeys_from_spec() -> bool {
        true
    }

    open spec fn from_spec(v: AudioChannel) -> i32 {
        audio_channel_number(v)
    }
}

/// Reading a channel number and writing the channel back gives the number.
pub proof fn lemma_audio_channel_number_roundtrip(v: i32)
    ensures
        audio_channel_number(audio_channel_of(v)) == v,
{
}

/// Writing a channel as a number and reading it back gives the channel, for
/// every channel but `Any(0)` and `Any(1)`, which read back as `Left` and
/// `Right`.
pub proof fn lemma_audio_channel_roundtrip(c: AudioChannel)
    requires
        c != AudioChannel::Any(0),
        c != AudioChannel::Any(1),
    ensures
        audio_channel_of(audio_channel_number(c)) == c,
{
}

/// A pixel of 8-bit red, green, blue and alpha.
#[derive(Debug, Default, Clone, Copy, PartialEq, Eq, Structural)]
pub struct RgbaPixel {
    /// Red.
    pub r: u8,
    /// Green.
    pub g: u8,
    /// Blue.
    pub b: u8,
    /// Alpha.
    pub a: u8,
}

impl From<(u8, u8, u8, u8)> for RgbaPixel {
    fn from(value: (u8, u8, u8, u8)) -> (r: Self) {
        RgbaPixel { r: value.0, g: value.1, b: value.2, a: value.3 }
    }
}

impl vstd::std_specs::convert::FromSpecImpl<(u8, u8, u8, u8)> for RgbaPixel {
    open spec fn obeys_from_spec() -> bool {
        true
    }

    open spec fn from_spec(v: (u8, u8, u8, u8)) -> Self {
        RgbaPixel { r: v.0, g: v.1, b: v.2, a: v.3 }
    }
}

impl From<RgbaPixel> for (u8, u8, u8, u8) {
    fn from(value: RgbaPixel) -> (r: Self) {
        (value.r, value.g, value.b, value.a)
    }
}

impl vstd::std_specs::convert::FromSpecImpl<RgbaPixel> for (u8, u8, u8, u8) {
    open spec fn obeys_from_spec() -> bool {
        true
    }

    open spec fn from_spec(v: RgbaPixel) -> Self {
        (v.r, v.g, v.b, v.a)
    }
}

/// The pixel formats in which image data can be written to an image resource.
#[derive(Debug, Clone, Copy, PartialEq, Eq, Hash)]
pub enum InputImageResourcePixelFormat {
    /// 8-bit RGBA.
    Rgba,
    /// 8-bit BGRA.
    Bgra,
    /// 8-bit BGR with an unused fourth byte.
    Bgr,
    /// 16-bit RGBA with premultiplied alpha.
    Pa64,
    /// 16-bit floating-point RGBA with premultiplied alpha.
    Hf64,
    /// YUY2.
    Yuy2,
    /// YC48, as signed 16-bit RGBA.
    Yc48,
}

/// The pixel formats in which image data can be read from an image resource.
#[derive(Debug, Clone, Copy, PartialEq, Eq, Hash)]
pub enum OutputImageResourcePixelFormat {
    /// 8-bit RGBA.
    Rgba,
    /// 16-bit RGBA with premultiplied alpha.
    Pa64,
    /// 16-bit floating-point RGBA with premultiplied alpha.
    Hf64,
}

/// How a drawn image is blended.
#[derive(Debug, Clone, Copy, PartialEq, Eq, Hash, Structural)]
pub enum BlendMode {
    /// Normal.
    Normal,
    /// Add.
    Add,
    /// Subtract.
    Sub,
    /// Multiply.
    Mul,
    /// Screen.
    Screen,
    /// Overlay.
    Overlay,
    /// Lighten.
    Light,
    /// Darken.
    Dark,
    /// Brightness.
    Brightness,
    /// Chroma.
    Chroma,
    /// Shadow.
    Shadow,
    /// Light and dark.
    LightDark,
    /// Difference.
    Diff,
}

/// How a texture is sampled.
#[derive(Debug, Clone, Copy, PartialEq, Eq, Hash, Structural)]
pub enum SamplerMode {
    /// Transparent outside the image.
    Clip,
    /// The outermost colour outside the image.
    Clamp,
    /// The image repeats.
    Loop,
    /// The image repeats, mirrored.
    Mirror,
    /// No interpolation; transparent outside the image.
    Dot,
}

/// How a drawn image turns towards the camera.
#[derive(Debug, Clone, Copy, PartialEq, Eq, Hash, Structural)]
pub enum BillboardMode {
    /// It keeps its standard orientation.
    Standard,
    /// It turns sideways only.
    Side,
    /// It turns sideways and up and down.
    Direction,
    /// It faces the camera.
    Camera,
}

/// How a shader's output is blended.
#[derive(Debug, Clone, Copy, PartialEq, Eq, Hash, Structural)]
pub enum BlendStateMode {
    /// The output is copied.
    Copy,
    /// Only the alpha is multiplied.
    Mask,
    /// The output is alpha-blended.
    Draw,
    /// The output is added.
    Add,
}

impl Default for BlendMode {
    fn default() -> (r: Self)
        ensures
            r == BlendMode::Normal,
    {
        BlendMode::Normal
    }
}

impl Default for SamplerMode {
    fn default() -> (r: Self)
        ensures
            r == SamplerMode::Clip,
    {
        SamplerMode::Clip
    }
}

impl Default for BillboardMode {
    fn default() -> (r: Self)
        ensures
            r == BillboardMode::Standard,
    {
        BillboardMode::Standard
    }
}

impl Default for BlendStateMode {
    fn default() -> (r: Self)
        ensures
            r == BlendStateMode::Copy,
    {
        BlendStateMode::Copy
    }
}

/// An error of a filter's call to the host.
#[derive(Debug)]
pub enum FilterProcError {
    /// The host reported that the call failed.
    ApiCallFailed,
    /// A string argument holds a NUL and cannot be passed to the host.
    InputCwstrContainsNull(NullByteError),
    /// A value does not fit what the host takes.
    ValueOutOfRange,
}

impl From<NullByteError> for FilterProcError {
    fn from(e: NullByteError) -> (r: Self) {
        FilterProcError::InputCwstrContainsNull(e)
    }
}

impl vstd::std_specs::convert::FromSpecImpl<NullByteError> for FilterProcError {
    open spec fn obeys_from_spec() -> bool {
        true
    }

    open spec fn from_spec(v: NullByteError) -> Self {
        FilterProcError::InputCwstrContainsNull(v)
    }
}

impl FilterProcError {
    /// The message that explains the error.
    pub fn message(&self) -> (r: String)
        ensures
            r@ == match self {
                FilterProcError::ApiCallFailed => "api call failed"@,
                FilterProcError::InputCwstrContainsNull(_) => "input string contains null byte"@,
                FilterProcError::ValueOutOfRange => "value is out of range"@,
            },
    {
        let mut s = String::new();
        match self {
            FilterProcError::ApiCallFailed => push_str(&mut s, "api call failed"),
            FilterProcError::InputCwstrContainsNull(_) => push_str(
                &mut s,
                "input string contains null byte",
            ),
            FilterProcError::ValueOutOfRange => push_str(&mut s, "value is out of range"),
        }
        s
    }
}

/// The number of bytes that `height` rows of `pitch` bytes take, or
/// [`FilterProcError::ValueOutOfRange`] when it does not fit in `usize`.
pub fn image_data_byte_len(pitch: u32, height: u32) -> (r: Result<usize, FilterProcError>)
    ensures
        r is Ok <==> pitch * height <= usize::MAX,
        r matches Ok(n) ==> n == pitch * height,
        r matches Err(e) ==> e is ValueOutOfRange,
{
    match (pitch as usize).checked_mul(height as usize) {
        Some(n) => Ok(n),
        None => Err(FilterProcError::ValueOutOfRange),
    }
}

/// `e` is the error of the first of the readable resources whose name holds a
/// NUL: every name before it is free of NUL, and `e` is that name's error.
pub open spec fn first_readable_nul_error(
    resources: Seq<ReadableImageResource>,
    e: NullByteError,
) -> bool {
    exists|j: int|
        0 <= j < resources.len() && (forall|k: int|
            0 <= k < j ==> !#[trigger] utf16_encode(readable_text(resources[k])).contains(0u16))
            && #[trigger] is_nul_error_for(e, readable_text(resources[j]))
}

/// The wide strings of the names of readable resources, in order; the first
/// name that holds a NUL gives its error.
pub fn readable_resource_names(resources: &[ReadableImageResource]) -> (r: Result<
    Vec<CWString>,
    FilterProcError,
>)
    ensures
        r is Ok <==> forall|i: int|
            0 <= i < resources@.len() ==> !#[trigger] utf16_encode(
                readable_text(resources@[i]),
            ).contains(0u16),
        r matches Ok(v) ==> v@.len() == resources@.len() && forall|i: int|
            0 <= i < resources@.len() ==> #[trigger] v@[i]@ == utf16_encode(
                readable_text(resources@[i]),
            ).push(0u16),
        r matches Err(e) ==> e is InputCwstrContainsNull,
        r matches Err(FilterProcError::InputCwstrContainsNull(ne)) ==> first_readable_nul_error(
            resources@,
            ne,
        ),
{
    let mut out: Vec<CWString> = Vec::new();
    let n = resources.len();
    let mut i: usize = 0;
    while i < n
        invariant
            n == resources@.len(),
            i <= n,
            out@.len() == i,
            forall|k: int|
                0 <= k < i ==> !#[trigger] utf16_encode(readable_text(resources@[k])).contains(
                    0u16,
                ),
            forall|k: int|
                0 <= k < i ==> #[trigger] out@[k]@ == utf16_encode(
                    readable_text(resources@[k]),
                ).push(0u16),
        decreases n - i,
    {
        let name = resources[i].to_string();
        match CWString::new(name.as_str()) {
            Ok(w) => out.push(w),
            Err(e) => {
                proof {
                    let units = utf16_encode(readable_text(resources@[i as int]));
                    assert(units[e.spec_position() as int] == 0u16);
                    assert(units.contains(0u16));
                    assert(is_nul_error_for(e, readable_text(resources@[i as int])));
                    assert(first_readable_nul_error(resources@, e));
                }
                return Err(FilterProcError::InputCwstrContainsNull(e));
            },
        }
        i = i + 1;
    }
    Ok(out)
}

/// `e` is the error of the first of the shader resources whose name holds a
/// NUL: every name before it is free of NUL, and `e` is that name's error.
pub open spec fn first_shader_nul_error(
    resources: Seq<ShaderTargetResource>,
    e: NullByteError,
) -> bool {
    exists|j: int|
        0 <= j < resources.len() && (forall|k: int|
            0 <= k < j ==> !#[trigger] utf16_encode(shader_text(resources[k])).contains(0u16))
            && #[trigger] is_nul_error_for(e, shader_text(resources[j]))
}

/// The wide strings of the names of shader targets, in order; the first name
/// that holds a NUL gives its error.
pub fn shader_target_names(resources: &[ShaderTargetResource]) -> (r: Result<
    Vec<CWString>,
    FilterProcError,
>)
    ensures
        r is Ok <==> forall|i: int|
            0 <= i < resources@.len() ==> !#[trigger] utf16_encode(
                shader_text(resources@[i]),
            ).contains(0u16),
        r matches Ok(v) ==> v@.len() == resources@.len() && forall|i: int|
            0 <= i < resources@.len() ==> #[trigger] v@[i]@ == utf16_encode(
                shader_text(resources@[i]),
            ).push(0u16),
        r matches Err(e) ==> e is InputCwstrContainsNull,
        r matches Err(FilterProcError::InputCwstrContainsNull(ne)) ==> first_shader_nul_error(
            resources@,
            ne,
        ),
{
    let mut out: Vec<CWString> = Vec::new();
    let n = resources.len();
    let mut i: usize = 0;
    while i < n
        invariant
            n == resources@.len(),
            i <= n,
            out@.len() == i,
            forall|k: int|
                0 <= k < i ==> !#[trigger] utf16_encode(shader_text(resources@[k])).contains(
                    0u16,
                ),
            forall|k: int|
                0 <= k < i ==> #[trigger] out@[k]@ == utf16_encode(shader_text(resources@[k])).push(
                    0u16,
                ),
        decreases n - i,
    {
        let name = resources[i].to_string();
        match CWString::new(name.as_str()) {
            Ok(w) => out.push(w),
            Err(e) => {
                proof {
                    let units = utf16_encode(shader_text(resources@[i as int]));
                    assert(units[e.spec_position() as int] == 0u16);
                    assert(units.contains(0u16));
                    assert(is_nul_error_for(e, shader_text(resources@[i as int])));
                    assert(first_shader_nul_error(resources@, e));
                }
                return Err(FilterProcError::InputCwstrContainsNull(e));
            },
        }
        i = i + 1;
    }
    Ok(out)
}

} // verus!
