use aviutl2::input::{
    input_info_flag, preset_tracks, track_count_reply, track_request, track_set_reply,
    TrackRequest, TRACK_TYPE_AUDIO, TRACK_TYPE_VIDEO,
};
use aviutl2::output::{output_media_from_raw, RawOutputInfo};
use aviutl2::common::{Rational32, Yc48};
use aviutl2::input::{
    AsAudio, AsImage, AudioBuffer, AudioFormat, AudioInputInfo, ImageBuffer, InputInfo,
    InputPixelFormat, InputType, IntoAudio, IntoImage, VideoInputInfo,
};
use aviutl2::output::{
    mono_samples, stereo_samples, FrameWalk, FromRawVideoFrame, OutputType, Pa64VideoFrame,
    RawBgrVideoFrame, RawPa64VideoFrame, RawYc48VideoFrame, RgbVideoFrame, SampleWalk,
    VideoOutputInfo, Yc48VideoFrame, Yuy2VideoFrame,
};
use aviutl2::output::AudioOutputInfo;
use aviutl2::output::FromRawAudioSamples;

fn video(width: u32, height: u32) -> VideoOutputInfo {
    VideoOutputInfo {
        width,
        height,
        fps: Rational32::new(30, 1),
        num_frames: 3,
    }
}

#[test]
fn pixel_and_sample_sizes() {
    assert_eq!(InputPixelFormat::Bgr.bytes_count_per_pixel(), 3);
    assert_eq!(InputPixelFormat::Bgra.bytes_count_per_pixel(), 4);
    assert_eq!(InputPixelFormat::Yuy2.bytes_count_per_pixel(), 2);
    assert_eq!(InputPixelFormat::Pa64.bytes_count_per_pixel(), 8);
    assert_eq!(InputPixelFormat::Hf64.bytes_count_per_pixel(), 8);
    assert_eq!(InputPixelFormat::Yc48.bytes_count_per_pixel(), 6);
    assert_eq!(AudioFormat::Pcm16.bytes_per_sample(), 2);
    assert_eq!(AudioFormat::IeeeFloat32.bytes_per_sample(), 4);
    assert_eq!(InputType::Video.to_bits(), 1);
    assert_eq!(InputType::Audio.to_bits(), 2);
    assert_eq!(InputType::Both.to_bits(), 3);
    assert_eq!(OutputType::Both.to_bits(), 3);
}

#[test]
fn bitmap_header_of_video() {
    let info = VideoInputInfo {
        fps: Rational32::new(30000, 1001),
        num_frames: 10,
        manual_frame_index: false,
        width: 640,
        height: 480,
        format: InputPixelFormat::Yc48,
    };
    let h = info.into_raw();
    assert_eq!(h.size, 40);
    assert_eq!(h.width, 640);
    assert_eq!(h.height, 480);
    assert_eq!(h.planes, 1);
    assert_eq!(h.bit_count, 48);
    assert_eq!(h.compression, u32::from_le_bytes(*b"YC48"));
    assert_eq!(h.size_image, 640 * 480 * 6);
    assert_eq!(info.frame_byte_len(), 640 * 480 * 6);
    assert_eq!(info.rgba_format_size(), 640 * 480 * 4);
    let bgr = VideoInputInfo { format: InputPixelFormat::Bgr, ..info };
    assert_eq!(bgr.into_raw().compression, 0);
}

#[test]
fn wave_header_of_audio() {
    let info = AudioInputInfo {
        sample_rate: 48000,
        num_samples: 1000,
        channels: 2,
        format: AudioFormat::Pcm16,
    };
    let w = info.clone().into_raw();
    assert_eq!(w.format_tag, 1);
    assert_eq!(w.channels, 2);
    assert_eq!(w.samples_per_sec, 48000);
    assert_eq!(w.avg_bytes_per_sec, 192000);
    assert_eq!(w.block_align, 4);
    assert_eq!(w.bits_per_sample, 16);
    assert_eq!(w.cb_size, 0);
    assert_eq!(info.sample_byte_len(10), 40);
    let float = AudioInputInfo { format: AudioFormat::IeeeFloat32, ..info };
    let wf = float.into_raw();
    assert_eq!(wf.format_tag, 3);
    assert_eq!(wf.bits_per_sample, 32);
}

#[test]
fn track_counts() {
    let info = InputInfo { video: None, audio: None };
    assert_eq!(info.track_count(), (0, 0));
    let audio = AudioInputInfo {
        sample_rate: 1,
        num_samples: 1,
        channels: 1,
        format: AudioFormat::Pcm16,
    };
    let info = InputInfo { video: None, audio: Some(audio) };
    assert_eq!(info.track_count(), (0, 1));
}

#[test]
fn image_bytes_of_pixel_vectors() {
    assert_eq!(vec![(1u8, 2u8, 3u8), (4, 5, 6)].as_image(), vec![1, 2, 3, 4, 5, 6]);
    assert_eq!(vec![(1u8, 2u8, 3u8, 4u8)].as_image(), vec![1, 2, 3, 4]);
    assert_eq!(vec![0x0102u16, 0xA0B0].as_image(), vec![2, 1, 0xB0, 0xA0]);
    assert_eq!(vec![-1i16, 2].as_image(), vec![0xFF, 0xFF, 2, 0]);
    assert_eq!(
        vec![(1u16, 2u16, 3u16, 0x100u16)].as_image(),
        vec![1, 0, 2, 0, 3, 0, 0, 1]
    );
    assert_eq!(vec![(1i16, -2i16, 3i16)].as_image(), vec![1, 0, 0xFE, 0xFF, 3, 0]);
    assert_eq!(
        vec![Yc48 { y: 1, cb: 2, cr: -1 }].as_image(),
        vec![1, 0, 2, 0, 0xFF, 0xFF]
    );
    let buf = vec![9u8, 8].into_image();
    assert_eq!(buf.0, vec![9, 8]);
    assert_eq!(ImageBuffer(vec![1, 2]).as_image(), vec![1, 2]);
}

#[test]
fn audio_bytes_of_sample_vectors() {
    assert_eq!(vec![(1u16, 0x200u16)].as_audio(), vec![1, 0, 0, 2]);
    assert_eq!(vec![0xFFFFu16].into_audio().0, vec![0xFF, 0xFF]);
    assert_eq!(AudioBuffer(vec![5]).as_audio(), vec![5]);
    assert_eq!(vec![7u8].as_audio(), vec![7]);
}

#[test]
fn rgb_frames_are_turned_top_down() {
    // Two rows of two BGR pixels, bottom row first.
    let data = [
        1u8, 2, 3, 4, 5, 6, // bottom row
        7, 8, 9, 10, 11, 12, // top row
    ];
    let frame = RgbVideoFrame::from_raw(&video(2, 2), &data);
    assert_eq!(frame.data, vec![(9, 8, 7), (12, 11, 10), (3, 2, 1), (6, 5, 4)]);
    let raw = RawBgrVideoFrame::from_raw(&video(2, 2), &data);
    assert_eq!(raw.data, data.to_vec());
}

#[test]
fn yc48_and_pa64_frames() {
    // One row of one pixel: words y, cr, cb.
    let data = [1u8, 0, 2, 0, 0xFF, 0xFF];
    let frame = Yc48VideoFrame::from_raw(&video(1, 1), &data);
    assert_eq!(frame.data, vec![Yc48 { y: 1, cb: 2, cr: -1 }]);
    let raw = RawYc48VideoFrame::from_raw(&video(1, 1), &data);
    assert_eq!(raw.data, vec![1, 2, -1]);

    let pa = [1u8, 0, 2, 0, 3, 0, 0, 1, 5, 0, 6, 0, 7, 0, 8, 0];
    let frame = Pa64VideoFrame::from_raw(&video(1, 2), &pa);
    assert_eq!(frame.data, vec![(5, 6, 7, 8), (1, 2, 3, 256)]);
    let raw = RawPa64VideoFrame::from_raw(&video(1, 2), &pa);
    assert_eq!(raw.data, vec![1, 2, 3, 256, 5, 6, 7, 8]);
}

#[test]
fn yuy2_frames_need_even_sides() {
    assert!(Yuy2VideoFrame::check(&video(2, 2)).is_ok());
    assert_eq!(
        Yuy2VideoFrame::check(&video(3, 2)).unwrap_err(),
        "YUY2 format requires even width and height"
    );
    assert!(RgbVideoFrame::check(&video(3, 3)).is_ok());
    assert_eq!(RgbVideoFrame::format(), 0);
}

#[test]
fn mono_and_stereo_samples() {
    assert_eq!(mono_samples(vec![1, 2, 3], 1), vec![1, 2, 3]);
    assert_eq!(mono_samples(vec![1, 2, 3, 4, 5], 2), vec![1, 3, 5]);
    assert_eq!(mono_samples(vec![1, 2, 3, 4, 5, 6, 7], 3), vec![1, 4, 7]);
    assert_eq!(stereo_samples(vec![1, 2, 3, 4], 2), Some(vec![(1, 2), (3, 4)]));
    assert_eq!(stereo_samples(vec![1, 2, 3], 1), Some(vec![(1, 1), (2, 2), (3, 3)]));
    assert_eq!(stereo_samples(vec![1, 2, 3], 3), None);
}

#[test]
fn frame_and_sample_walks() {
    let v = video(2, 2);
    let mut frames = FrameWalk::new(Some(&v), true);
    let mut seen = Vec::new();
    while let Some(f) = frames.next_frame() {
        seen.push(f);
        frames.advance();
    }
    assert_eq!(seen, vec![0, 1, 2]);
    assert_eq!(FrameWalk::new(Some(&v), false).next_frame(), None);
    assert_eq!(FrameWalk::new(None, true).next_frame(), None);

    let a = AudioOutputInfo { sample_rate: 44100, num_samples: 10, num_channels: 2 };
    let mut samples = SampleWalk::new(Some(&a), 4);
    let mut blocks = Vec::new();
    while let Some((start, len)) = samples.next_block() {
        blocks.push((start, len));
        let s = samples.advance(len as usize);
        assert_eq!(s, start as usize);
    }
    assert_eq!(blocks, vec![(0, 4), (4, 4), (8, 2)]);
    assert!(v.has_frame(2));
    assert!(!v.has_frame(3));
    assert!(!v.has_frame(-1));
}

#[test]
fn pcm16_samples_from_bytes() {
    let data: Vec<u8> = vec![0x01, 0x00, 0xff, 0xff, 0x00, 0x80, 0xff, 0x7f];
    let samples = <i16 as FromRawAudioSamples>::from_raw(2, 2, &data);
    assert_eq!(samples, vec![1i16, -1, i16::MIN, i16::MAX]);
    assert_eq!(<i16 as FromRawAudioSamples>::format(), 1);
}

#[test]
fn output_media_from_raw_flags() {
    let raw = RawOutputInfo {
        flag: 3,
        w: 640,
        h: 480,
        rate: 30,
        scale: 1,
        n: 90,
        audio_rate: 48000,
        audio_n: 144000,
        audio_ch: 2,
    };
    let (v, a) = output_media_from_raw(&raw);
    let v = v.unwrap();
    assert_eq!((v.width, v.height, v.num_frames), (640, 480, 90));
    assert_eq!((*v.fps.numer(), *v.fps.denom()), (30, 1));
    let a = a.unwrap();
    assert_eq!((a.sample_rate, a.num_samples, a.num_channels), (48000, 144000, 2));
    let (v, a) = output_media_from_raw(&RawOutputInfo { flag: 2, scale: 0, ..raw });
    assert!(v.is_none());
    assert!(a.is_some());
    let (v, a) = output_media_from_raw(&RawOutputInfo { flag: 1, ..raw });
    assert!(v.is_some());
    assert!(a.is_none());
}

#[test]
fn track_protocol_answers() {
    assert_eq!(track_request(TRACK_TYPE_VIDEO, -1), TrackRequest::Count);
    assert_eq!(track_request(7, -1), TrackRequest::Count);
    assert_eq!(track_request(TRACK_TYPE_VIDEO, 2), TrackRequest::SetVideo(2));
    assert_eq!(track_request(TRACK_TYPE_AUDIO, 0), TrackRequest::SetAudio(0));
    assert_eq!(track_request(7, 1), TrackRequest::Invalid);
    assert_eq!(track_count_reply(TRACK_TYPE_VIDEO, Some((3, 2))), 3);
    assert_eq!(track_count_reply(TRACK_TYPE_AUDIO, Some((3, 2))), 2);
    assert_eq!(track_count_reply(7, Some((3, 2))), -1);
    assert_eq!(track_count_reply(TRACK_TYPE_VIDEO, None), -1);
    assert_eq!(preset_tracks(Some((0, 2))), (Some(0), None));
    assert_eq!(preset_tracks(Some((1, 0))), (None, Some(0)));
    assert_eq!(preset_tracks(None), (None, None));
    assert_eq!(track_set_reply(Some(4)), (4, 4));
    assert_eq!(track_set_reply(None), (-1, u32::MAX));
}

#[test]
fn input_info_flags() {
    let video = VideoInputInfo {
        fps: Rational32::new(30, 1),
        num_frames: 10,
        manual_frame_index: true,
        width: 4,
        height: 2,
        format: InputPixelFormat::Bgra,
    };
    let audio = AudioInputInfo {
        sample_rate: 48000,
        num_samples: 100,
        channels: 2,
        format: AudioFormat::Pcm16,
    };
    assert_eq!(input_info_flag(&InputInfo { video: Some(video), audio: Some(audio.clone()) }), 19);
    let plain = VideoInputInfo { manual_frame_index: false, ..video };
    assert_eq!(input_info_flag(&InputInfo { video: Some(plain), audio: None }), 1);
    assert_eq!(input_info_flag(&InputInfo { video: None, audio: Some(audio) }), 2);
    assert_eq!(input_info_flag(&InputInfo { video: None, audio: None }), 0);
}

#[test]
fn yuy2_frames_decode_pairs_top_down() {
    let data: Vec<u8> = (1..=16).collect();
    let frame = Yuy2VideoFrame::from_raw(&video(4, 2), &data);
    assert_eq!(
        frame.data,
        vec![(9, 10, 11, 12), (13, 14, 15, 16), (1, 2, 3, 4), (5, 6, 7, 8)]
    );
    assert_eq!(<Yuy2VideoFrame as FromRawVideoFrame>::format(), 0x32595559);
}
