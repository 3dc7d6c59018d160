//! Output plugins: what the host tells a plugin about the video and audio to
//! write, the decoding of frames and samples, and the walks over them.

pub mod frame;
pub mod info;

pub use crate::common::{format_file_filters, AviUtl2Info, FileFilter, Rational32, Yc48};
pub use info::{
    mono_samples, output_media_from_raw, stereo_samples, AudioOutputInfo, FrameWalk,
    OutputPluginTable, OutputType, RawOutputInfo, SampleWalk, VideoOutputInfo,
    OUTPUT_FLAG_AUDIO, OUTPUT_FLAG_VIDEO,
};
pub use frame::{
    FromRawAudioSamples, FromRawVideoFrame, Pa64VideoFrame, RawBgrVideoFrame, RawPa64VideoFrame,
    RawYc48VideoFrame, RawYuy2VideoFrame, RgbVideoFrame, Yc48VideoFrame, Yuy2VideoFrame,
};
