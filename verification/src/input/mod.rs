//! Input plugins: what a plugin tells the host about the media it opens,
//! the headers built from that, and the bytes of the images and audio it
//! reads.

pub mod image;
pub mod info;
pub mod track;

pub use crate::common::{
    format_file_filters, AviUtl2Info, AviUtl2Version, FileFilter, Rational32, Yc48,
};
pub use image::{AsAudio, AsImage, AudioBuffer, ImageBuffer, IntoAudio, IntoImage};
pub use info::{
    AudioFormat, AudioInputInfo, BitmapInfoHeader, InputInfo, InputPixelFormat, InputPluginTable,
    InputType, VideoInputInfo, WaveFormatEx,
};
pub use track::{
    input_info_flag, preset_tracks, track_count_reply, track_request, track_set_reply,
    TrackRequest, INPUT_INFO_FLAG_AUDIO, INPUT_INFO_FLAG_TIME_TO_FRAME, INPUT_INFO_FLAG_VIDEO,
    TRACK_TYPE_AUDIO, TRACK_TYPE_VIDEO,
};
