use aviutl2::cache::{
    audio_cache_request, audio_channel_buffer, audio_len, count_from_raw, count_to_raw,
    file_image_byte_len, image_cache_request, image_len, CacheError,
};
use aviutl2::filter::AudioChannel;

#[test]
fn sizes_from_the_host() {
    assert_eq!(image_len(4, 5).unwrap(), 20);
    assert!(matches!(image_len(-1, 5), Err(CacheError::ValueOutOfRange)));
    assert_eq!(file_image_byte_len(16, 3).unwrap(), 48);
    assert!(matches!(file_image_byte_len(3, -3), Err(CacheError::ValueOutOfRange)));
    assert_eq!(audio_len(7).unwrap(), 7);
    assert!(matches!(audio_len(-7), Err(CacheError::ValueOutOfRange)));
    assert_eq!(count_from_raw(0).unwrap(), 0);
    assert_eq!(count_to_raw(5).unwrap(), 5);
    assert!(matches!(count_to_raw(usize::MAX), Err(CacheError::ValueOutOfRange)));
}

#[test]
fn audio_channel_buffers() {
    assert_eq!(audio_channel_buffer(AudioChannel::Left, 1, true, false), Some(0));
    assert_eq!(audio_channel_buffer(AudioChannel::Left, 1, false, false), None);
    assert_eq!(audio_channel_buffer(AudioChannel::Right, 1, true, true), None);
    assert_eq!(audio_channel_buffer(AudioChannel::Right, 2, true, true), Some(1));
    assert_eq!(audio_channel_buffer(AudioChannel::Any(0), 2, true, true), Some(0));
    assert_eq!(audio_channel_buffer(AudioChannel::Any(2), 2, true, true), None);
}

#[test]
fn cache_requests() {
    let (name, w, h) = image_cache_request("img", 3, 4).unwrap();
    assert_eq!(name.to_string_lossy(), "img");
    assert_eq!((w, h), (3, 4));
    assert!(matches!(
        image_cache_request("a\0", 3, usize::MAX),
        Err(CacheError::InputCwstrContainsNull(_))
    ));
    assert!(matches!(
        image_cache_request("a", 3, usize::MAX),
        Err(CacheError::ValueOutOfRange)
    ));
    assert!(matches!(
        audio_cache_request("a\0", 10, 3),
        Err(CacheError::InvalidAudioChannel)
    ));
    let (_, s, c) = audio_cache_request("snd", 10, 2).unwrap();
    assert_eq!((s, c), (10, 2));
    assert_eq!(CacheError::InvalidAudioChannel.message(), "invalid audio channel");
}

#[test]
fn cache_requests_report_the_name_nul() {
    match image_cache_request("img\0x", 4, 4) {
        Err(CacheError::InputCwstrContainsNull(e)) => {
            assert_eq!(e.nul_position(), 3);
            assert_eq!(e.into_vec(), vec![105, 109, 103, 0, 120]);
        }
        _ => panic!("expected a NUL error"),
    }
    match audio_cache_request("\0", 10, 2) {
        Err(CacheError::InputCwstrContainsNull(e)) => assert_eq!(e.nul_position(), 0),
        _ => panic!("expected a NUL error"),
    }
}
