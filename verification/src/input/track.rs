//! The host's track protocol for input plugins: a call either asks how many
//! tracks of a kind a file has or sets the track to read, and the plugin
//! answers with a number.

use vstd::prelude::*;
use crate::input::info::InputInfo;

verus! {

/// The host's number for the video track kind.
pub const TRACK_TYPE_VIDEO: i32 = 0;

/// The host's number for the audio track kind.
pub const TRACK_TYPE_AUDIO: i32 = 1;

/// The bit of the host's input information that says the file has video.
pub const INPUT_INFO_FLAG_VIDEO: i32 = 1;

/// The bit of the host's input information that says the file has audio.
pub const INPUT_INFO_FLAG_AUDIO: i32 = 2;

/// The bit of the host's input information that says the plugin maps times
/// to frames itself.
pub const INPUT_INFO_FLAG_TIME_TO_FRAME: i32 = 16;

/// What a track call asks for.
#[derive(Debug, Clone, Copy, PartialEq, Eq, Structural)]
pub enum TrackRequest {
    /// The number of tracks of the given kind (the call's track is -1).
    Count,
    /// Setting the video track to the given number.
    SetVideo(u32),
    /// Setting the audio track to the given number.
    SetAudio(u32),
    /// Setting a track of a kind the host does not have.
    Invalid,
}

/// What a track call with the given kind and track asks for.
pub open spec fn track_request_of(track_type: i32, track: i32) -> TrackRequest {
    if track == -1 {
        TrackRequest::Count
    } else if track_type == TRACK_TYPE_VIDEO {
        TrackRequest::SetVideo(track as u32)
    } else if track_type == TRACK_TYPE_AUDIO {
        TrackRequest::SetAudio(track as u32)
    } else {
        TrackRequest::Invalid
    }
}

/// Reads a track call: a track of -1 asks for the number of tracks; any
/// other track sets the track of the kind, taken as an unsigned number.
pub fn track_request(track_type: i32, track: i32) -> (r: TrackRequest)
    ensures
        r == track_request_of(track_type, track),
{
    if track == -1 {
        TrackRequest::Count
    } else if track_type == TRACK_TYPE_VIDEO {
        TrackRequest::SetVideo(track as u32)
    } else if track_type == TRACK_TYPE_AUDIO {
        TrackRequest::SetAudio(track as u32)
    } else {
        TrackRequest::Invalid
    }
}

/// The answer to a count request: the number of video or audio tracks, or
/// -1 when the kind is unknown or the plugin could not count the tracks.
pub fn track_count_reply(track_type: i32, counts: Option<(u32, u32)>) -> (r: i32)
    ensures
        r == (match counts {
            Some((v, a)) => if track_type == TRACK_TYPE_VIDEO {
                v as i32
            } else if track_type == TRACK_TYPE_AUDIO {
                a as i32
            } else {
                -1i32
            },
            None => -1i32,
        }),
{
    match counts {
        Some((v, a)) => if track_type == TRACK_TYPE_VIDEO {
            v as i32
        } else if track_type == TRACK_TYPE_AUDIO {
            a as i32
        } else {
            -1
        },
        None => -1,
    }
}

/// The tracks that are set without a call once the tracks are counted: a
/// kind with no tracks gets track 0; `None` where the host will choose.
pub fn preset_tracks(counts: Option<(u32, u32)>) -> (r: (Option<u32>, Option<u32>))
    ensures
        r.0 == (if counts matches Some((v, _)) && v == 0 {
            Some(0u32)
        } else {
            None
        }),
        r.1 == (if counts matches Some((_, a)) && a == 0 {
            Some(0u32)
        } else {
            None
        }),
{
    match counts {
        Some((v, a)) => (
            if v == 0 {
                Some(0)
            } else {
                None
            },
            if a == 0 {
                Some(0)
            } else {
                None
            },
        ),
        None => (None, None),
    }
}

/// The answer to setting a track and the track then in use: the track the
/// plugin chose, or -1 (kept as `u32::MAX`) when it refused.
pub fn track_set_reply(chosen: Option<u32>) -> (r: (i32, u32))
    ensures
        r.0 == (match chosen {
            Some(t) => t as i32,
            None => -1i32,
        }),
        r.1 == r.0 as u32,
{
    let reply: i32 = match chosen {
        Some(t) => t as i32,
        None => -1,
    };
    (reply, reply as u32)
}

/// The flags of the host's input information for what a plugin reports.
pub open spec fn info_flag_of(info: InputInfo) -> int {
    (if info.video is Some {
        INPUT_INFO_FLAG_VIDEO
    } else {
        0i32
    }) + (if info.video matches Some(v) && v.manual_frame_index {
        INPUT_INFO_FLAG_TIME_TO_FRAME
    } else {
        0i32
    }) + (if info.audio is Some {
        INPUT_INFO_FLAG_AUDIO
    } else {
        0i32
    })
}

/// The flags of the host's input information: video when there is video,
/// time-to-frame when the video maps times to frames itself, and audio
/// when there is audio.
pub fn input_info_flag(info: &InputInfo) -> (r: i32)
    ensures
        r == info_flag_of(*info),
        (r & 1 != 0) <==> info.video is Some,
        (r & 2 != 0) <==> info.audio is Some,
        (r & 16 != 0) <==> (info.video matches Some(v) && v.manual_frame_index),
        r & !19i32 == 0,
{
    proof {
        lemma_input_info_flag_bits(*info);
    }
    let mut flag: i32 = 0;
    match &info.video {
        Some(v) => {
            flag = flag + INPUT_INFO_FLAG_VIDEO;
            if v.manual_frame_index {
                flag = flag + INPUT_INFO_FLAG_TIME_TO_FRAME;
            }
        },
        None => {},
    }
    if info.audio.is_some() {
        flag = flag + INPUT_INFO_FLAG_AUDIO;
    }
    flag
}

proof fn lemma_flag_bit_sum(v: bool, m: bool, a: bool, r: i32)
    by (bit_vector)
    requires
        r == (if v {
            1i32
        } else {
            0i32
        }) + (if v && m {
            16i32
        } else {
            0i32
        }) + (if a {
            2i32
        } else {
            0i32
        }),
    ensures
        (r & 1 != 0) == v,
        (r & 2 != 0) == a,
        (r & 16 != 0) == (v && m),
        r & !19i32 == 0,
        r == ((if v {
            1i32
        } else {
            0i32
        }) | (if v && m {
            16i32
        } else {
            0i32
        }) | (if a {
            2i32
        } else {
            0i32
        })),
{
}

/// The flags tell the host what a file holds, each on its own bit: bit 1
/// exactly when there is video, bit 2 exactly when there is audio (whatever
/// the video), bit 16 exactly when the video maps times to frames itself, and
/// no other bit.
pub proof fn lemma_input_info_flag_bits(info: InputInfo)
    ensures
        (info_flag_of(info) as i32 & 1 != 0) <==> info.video is Some,
        (info_flag_of(info) as i32 & 2 != 0) <==> info.audio is Some,
        (info_flag_of(info) as i32 & 16 != 0) <==> (info.video matches Some(v)
            && v.manual_frame_index),
        info_flag_of(info) as i32 & !19i32 == 0,
        info_flag_of(info) == ((if info.video is Some {
            1i32
        } else {
            0i32
        }) | (if info.video matches Some(v) && v.manual_frame_index {
            16i32
        } else {
            0i32
        }) | (if info.audio is Some {
            2i32
        } else {
            0i32
        })),
{
    let v = info.video is Some;
    let m = info.video matches Some(x) && x.manual_frame_index;
    let a = info.audio is Some;
    let r = info_flag_of(info) as i32;
    assert(r == (if v {
        1i32
    } else {
        0i32
    }) + (if v && m {
        16i32
    } else {
        0i32
    }) + (if a {
        2i32
    } else {
        0i32
    }));
    lemma_flag_bit_sum(v, m, a, r);
}

} // verus!
