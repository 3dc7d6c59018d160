//! The host's caches of images and audio: errors, pixel formats, and the
//! checks and conversions of the sizes and arguments that cache calls take.

use vstd::prelude::*;
use crate::common::wide::is_nul_error_for;
use crate::common::{CWString, NullByteError};
use crate::filter::info::{audio_channel_number, AudioChannel};
use crate::text::{push_str, utf16_encode};

verus! {

/// The handle of the plugin's global cache, usable as a cache identifier.
#[derive(Debug, Clone, Copy)]
pub struct GlobalCacheHandle;

/// An error of a cache call.
#[derive(Debug)]
pub enum CacheError {
    /// The host reported that the call failed.
    ApiCallFailed,
    /// A string argument holds a NUL and cannot be passed to the host.
    InputCwstrContainsNull(NullByteError),
    /// A value does not fit what the host takes or gives.
    ValueOutOfRange,
    /// An audio cache can only have one or two channels.
    InvalidAudioChannel,
}

impl From<NullByteError> for CacheError {
    fn from(e: NullByteError) -> (r: Self) {
        CacheError::InputCwstrContainsNull(e)
    }
}

impl vstd::std_specs::convert::FromSpecImpl<NullByteError> for CacheError {
    open spec fn obeys_from_spec() -> bool {
        true
    }

    open spec fn from_spec(v: NullByteError) -> Self {
        CacheError::InputCwstrContainsNull(v)
    }
}

impl CacheError {
    /// The message that explains the error.
    pub fn message(&self) -> (r: String)
        ensures
            r@ == match self {
                CacheError::ApiCallFailed => "api call failed"@,
                CacheError::InputCwstrContainsNull(_) => "input utf-16 string contains null byte"@,
                CacheError::ValueOutOfRange => "value is out of range"@,
                CacheError::InvalidAudioChannel => "invalid audio channel"@,
            },
    {
        let mut s = String::new();
        match self {
            CacheError::ApiCallFailed => push_str(&mut s, "api call failed"),
            CacheError::InputCwstrContainsNull(_) => push_str(
                &mut s,
                "input utf-16 string contains null byte",
            ),
            CacheError::ValueOutOfRange => push_str(&mut s, "value is out of range"),
            CacheError::InvalidAudioChannel => push_str(&mut s, "invalid audio channel"),
        }
        s
    }
}

/// The pixel format of a cached media-file image.
#[derive(Debug, Clone, Copy, PartialEq, Eq, Hash)]
pub enum CacheImagePixelFormat {
    /// 8-bit RGBA.
    Rgba,
    /// 8-bit BGRA.
    Bgra,
    /// 8-bit BGR with an unused fourth byte.
    Bgr,
    /// 16-bit RGBA with premultiplied alpha.
    Pa64,
    /// 16-bit floating-point RGBA with premultiplied alpha.
    Hf64,
    /// YUY2.
    Yuy2,
    /// YC48, as signed 16-bit RGBA.
    Yc48,
}

/// A count that the host reports as a signed number: the number when it is
/// not negative, else [`CacheError::ValueOutOfRange`].
pub fn count_from_raw(raw: i32) -> (r: Result<usize, CacheError>)
    ensures
        r is Ok <==> raw >= 0,
        r matches Ok(n) ==> n == raw,
        r matches Err(e) ==> e is ValueOutOfRange,
{
    if raw >= 0 {
        Ok(raw as usize)
    } else {
        Err(CacheError::ValueOutOfRange)
    }
}

/// A count to pass to the host as a signed 32-bit number, or
/// [`CacheError::ValueOutOfRange`] when it does not fit.
pub fn count_to_raw(n: usize) -> (r: Result<i32, CacheError>)
    ensures
        r is Ok <==> n <= i32::MAX,
        r matches Ok(v) ==> v == n,
        r matches Err(e) ==> e is ValueOutOfRange,
{
    if n <= 0x7fff_ffff {
        Ok(n as i32)
    } else {
        Err(CacheError::ValueOutOfRange)
    }
}

/// The product of two counts that the host reports, or
/// [`CacheError::ValueOutOfRange`] when either is negative or the product
/// does not fit in `usize`.
pub fn checked_area(a: i32, b: i32) -> (r: Result<usize, CacheError>)
    ensures
        r is Ok <==> (a >= 0 && b >= 0 && a * b <= usize::MAX),
        r matches Ok(n) ==> n == a * b,
        r matches Err(e) ==> e is ValueOutOfRange,
{
    let a = count_from_raw(a)?;
    let b = count_from_raw(b)?;
    match a.checked_mul(b) {
        Some(n) => Ok(n),
        None => Err(CacheError::ValueOutOfRange),
    }
}

/// The number of pixels of a cached image: width times height.
pub fn image_len(width: i32, height: i32) -> (r: Result<usize, CacheError>)
    ensures
        r is Ok <==> (width >= 0 && height >= 0 && width * height <= usize::MAX),
        r matches Ok(n) ==> n == width * height,
        r matches Err(e) ==> e is ValueOutOfRange,
{
    checked_area(width, height)
}

/// The bytes of a cached media-file image: pitch times height.
pub fn file_image_byte_len(pitch: i32, height: i32) -> (r: Result<usize, CacheError>)
    ensures
        r is Ok <==> (pitch >= 0 && height >= 0 && pitch * height <= usize::MAX),
        r matches Ok(n) ==> n == pitch * height,
        r matches Err(e) ==> e is ValueOutOfRange,
{
    checked_area(pitch, height)
}

/// The number of samples of a cached audio block.
pub fn audio_len(sample_num: i32) -> (r: Result<usize, CacheError>)
    ensures
        r is Ok <==> sample_num >= 0,
        r matches Ok(n) ==> n == sample_num,
        r matches Err(e) ==> e is ValueOutOfRange,
{
    count_from_raw(sample_num)
}

/// Which buffer of a cached audio block holds a channel: 0 for the left
/// channel when its buffer is there, 1 for the right channel when there are
/// two channels and its buffer is there, else none.
pub open spec fn channel_buffer(
    channel: AudioChannel,
    channel_num: i32,
    has_buffer0: bool,
    has_buffer1: bool,
) -> Option<usize> {
    let c = audio_channel_number(channel);
    if c == 0 && has_buffer0 {
        Some(0usize)
    } else if c == 1 && channel_num >= 2 && has_buffer1 {
        Some(1usize)
    } else {
        None
    }
}

/// Which buffer of a cached audio block holds a channel.
pub fn audio_channel_buffer(
    channel: AudioChannel,
    channel_num: i32,
    has_buffer0: bool,
    has_buffer1: bool,
) -> (r: Option<usize>)
    ensures
        r == channel_buffer(channel, channel_num, has_buffer0, has_buffer1),
{
    let c: i32 = i32::from(channel);
    if c == 0 && has_buffer0 {
        Some(0)
    } else if c == 1 && channel_num >= 2 && has_buffer1 {
        Some(1)
    } else {
        None
    }
}

/// The arguments of a call that creates an image cache: the name as a wide
/// string and the size as signed numbers. A NUL in the name is reported
/// first, then a width or a height out of range.
pub fn image_cache_request(name: &str, width: usize, height: usize) -> (r: Result<
    (CWString, i32, i32),
    CacheError,
>)
    ensures
        r is Ok <==> (!utf16_encode(name@).contains(0u16) && width <= i32::MAX && height
            <= i32::MAX),
        r matches Ok(t) ==> t.0@ == utf16_encode(name@).push(0u16) && t.1 == width && t.2
            == height,
        r matches Err(e) ==> (if utf16_encode(name@).contains(0u16) {
            e is InputCwstrContainsNull
        } else {
            e is ValueOutOfRange
        }),
        r matches Err(CacheError::InputCwstrContainsNull(ne)) ==> is_nul_error_for(ne, name@),
{
    let wide = match CWString::new(name) {
        Ok(w) => w,
        Err(e) => {
            proof {
                assert(e.spec_units()[e.spec_position() as int] == 0u16);
            }
            return Err(CacheError::InputCwstrContainsNull(e));
        },
    };
    let w = count_to_raw(width)?;
    let h = count_to_raw(height)?;
    Ok((wide, w, h))
}

/// The arguments of a call that creates an audio cache: the name as a wide
/// string, the number of samples and of channels. A channel count other than
/// one or two is reported first, then a NUL in the name, then a number out of
/// range.
pub fn audio_cache_request(name: &str, sample_num: usize, channel_num: usize) -> (r: Result<
    (CWString, i32, i32),
    CacheError,
>)
    ensures
        r is Ok <==> (1 <= channel_num <= 2 && !utf16_encode(name@).contains(0u16) && sample_num
            <= i32::MAX),
        r matches Ok(t) ==> t.0@ == utf16_encode(name@).push(0u16) && t.1 == sample_num && t.2
            == channel_num,
        r matches Err(e) ==> (if !(1 <= channel_num <= 2) {
            e is InvalidAudioChannel
        } else if utf16_encode(name@).contains(0u16) {
            e is InputCwstrContainsNull
        } else {
            e is ValueOutOfRange
        }),
        r matches Err(CacheError::InputCwstrContainsNull(ne)) ==> is_nul_error_for(ne, name@),
{
    if !(1 <= channel_num && channel_num <= 2) {
        return Err(CacheError::InvalidAudioChannel);
    }
    let wide = match CWString::new(name) {
        Ok(w) => w,
        Err(e) => {
            proof {
                assert(e.spec_units()[e.spec_position() as int] == 0u16);
            }
            return Err(CacheError::InputCwstrContainsNull(e));
        },
    };
    let s = count_to_raw(sample_num)?;
    let c = count_to_raw(channel_num)?;
    Ok((wide, s, c))
}

} // verus!
