use aviutl2::filter::{AudioObjectInfo, RawObjectInfo, RawSceneInfo, SceneInfo, VideoObjectInfo};
use aviutl2::filter::{
    image_data_byte_len, readable_resource_names, shader_target_names, AsImageResource,
    AudioChannel, BillboardMode, BlendMode, BlendStateMode, DrawImageResource,
    FilterConfigColorValue, FilterConfigGroup, FilterConfigItemKind, FilterPluginFlags,
    FilterProcError, ReadableImageResource, RgbaPixel, SamplerMode, ShaderTargetResource,
    WritableImageResource,
};

#[test]
fn converts_image_resources_to_supported_resource_types() {
    let readable_image = ReadableImageResource::ImageFile("foo.png".to_string());
    assert_eq!(
        readable_image.as_draw_image_resource(),
        Some(DrawImageResource::ImageFile("foo.png".to_string()))
    );
    assert_eq!(readable_image.as_writable_image_resource(), None);
    assert_eq!(readable_image.as_shader_target_resource(), None);

    let shader_target = ShaderTargetResource::Framebuffer;
    assert_eq!(
        shader_target.as_readable_image_resource(),
        Some(ReadableImageResource::Framebuffer)
    );
    assert_eq!(
        shader_target.as_shader_target_resource(),
        Some(ShaderTargetResource::Framebuffer)
    );
    assert_eq!(shader_target.as_draw_image_resource(), None);
    assert_eq!(shader_target.as_writable_image_resource(), None);
}

#[test]
fn converts_common_image_resources_to_all_compatible_resource_types() {
    let cache = DrawImageResource::CacheBuffer("buf".to_string());
    assert_eq!(
        cache.as_writable_image_resource(),
        Some(WritableImageResource::CacheBuffer("buf".to_string()))
    );
    assert_eq!(
        cache.as_readable_image_resource(),
        Some(ReadableImageResource::CacheBuffer("buf".to_string()))
    );
    assert_eq!(
        cache.as_shader_target_resource(),
        Some(ShaderTargetResource::CacheBuffer("buf".to_string()))
    );

    let random = ReadableImageResource::Random;
    assert_eq!(random.as_draw_image_resource(), None);
    assert_eq!(random.as_writable_image_resource(), None);
    assert_eq!(random.as_shader_target_resource(), None);
    assert_eq!(
        random.as_readable_image_resource(),
        Some(ReadableImageResource::Random)
    );
}

#[test]
fn resource_texts() {
    assert_eq!(DrawImageResource::Object.to_string(), "object");
    assert_eq!(DrawImageResource::Resource("a".to_string()).to_string(), "resource:a");
    assert_eq!(DrawImageResource::TempBuffer.to_string(), "tempbuffer");
    assert_eq!(DrawImageResource::CacheBuffer("c".to_string()).to_string(), "cache:c");
    assert_eq!(DrawImageResource::ImageFile("x.png".to_string()).to_string(), "image:x.png");
    assert_eq!(ReadableImageResource::Framebuffer.to_string(), "framebuffer");
    assert_eq!(ReadableImageResource::Random.to_string(), "random");
    assert_eq!(ShaderTargetResource::Framebuffer.to_string(), "framebuffer");
    assert_eq!(WritableImageResource::TempBuffer.to_string(), "tempbuffer");
}

#[test]
fn each_resource_converts_to_its_own_kind() {
    let draws = vec![
        DrawImageResource::Object,
        DrawImageResource::Resource("resource:x".to_string()),
        DrawImageResource::TempBuffer,
        DrawImageResource::CacheBuffer(String::new()),
        DrawImageResource::ImageFile("dir/a.png".to_string()),
    ];
    for d in draws {
        assert_eq!(d.as_draw_image_resource(), Some(d.clone()));
    }
    let reads = vec![ReadableImageResource::Random, ReadableImageResource::Object];
    for r in reads {
        assert_eq!(r.as_readable_image_resource(), Some(r.clone()));
    }
}

#[test]
fn writable_resources_convert_everywhere() {
    let w = WritableImageResource::Resource("dst".to_string());
    assert_eq!(
        w.as_draw_image_resource(),
        Some(DrawImageResource::Resource("dst".to_string()))
    );
    assert_eq!(
        w.as_readable_image_resource(),
        Some(ReadableImageResource::Resource("dst".to_string()))
    );
    assert_eq!(
        w.as_shader_target_resource(),
        Some(ShaderTargetResource::Resource("dst".to_string()))
    );
    assert_eq!(w.as_writable_image_resource(), Some(w.clone()));
}

#[test]
fn resource_name_lists() {
    let names = readable_resource_names(&[
        ReadableImageResource::Object,
        ReadableImageResource::Resource("ab".to_string()),
    ])
    .unwrap();
    assert_eq!(names.len(), 2);
    assert_eq!(names[1].to_string_lossy(), "resource:ab");
    let bad = shader_target_names(&[ShaderTargetResource::CacheBuffer("a\0".to_string())]);
    assert!(matches!(bad, Err(FilterProcError::InputCwstrContainsNull(_))));
    let ok = shader_target_names(&[ShaderTargetResource::TempBuffer]).unwrap();
    assert_eq!(ok[0].as_slice().len(), "tempbuffer".len() + 1);
}

#[test]
fn filter_flags_bits() {
    let mut flags = FilterPluginFlags::default();
    flags.video = true;
    flags.filter = true;
    assert_eq!(flags.to_bits(), 1 | 8);
    assert_eq!(FilterPluginFlags::from_bits(flags.to_bits()), flags);
    let from = FilterPluginFlags::from_bits(0x7fff_fff2);
    assert!(from.audio && !from.video && !from.input && !from.filter);
    assert_eq!(from.to_bits(), 0x7fff_fff2 & 15);
    assert_eq!(flags.to_display_string(), "FilterPluginFlags(video | filter)");
    assert_eq!(
        FilterPluginFlags::default().to_display_string(),
        "FilterPluginFlags()"
    );
}

#[test]
fn filter_flags_operators() {
    let a = FilterPluginFlags::from_bits(1 | 2);
    let b = FilterPluginFlags::from_bits(2 | 4);
    assert_eq!((a | b).to_bits(), 7);
    assert_eq!((a & b).to_bits(), 2);
    assert_eq!((a ^ b).to_bits(), 5);
    assert_eq!((a - b).to_bits(), 1);
    assert_eq!((!a).to_bits(), 12);
}

#[test]
fn color_value_parts() {
    let c = FilterConfigColorValue::from_rgb(0x12, 0x34, 0xAB);
    assert_eq!(c.0, 0x1234AB);
    assert_eq!(c.to_rgb(), (0x12, 0x34, 0xAB));
    assert_eq!(c.to_display_string(), "#1234AB");
    assert_eq!(c.to_lower_hex(), "1234ab");
    assert_eq!(c.to_upper_hex(), "1234AB");
    let high = FilterConfigColorValue(0xFF00_0010);
    assert_eq!(high.to_rgb(), (0, 0, 0x10));
    assert_eq!(high.to_lower_hex(), "000010");
    let r = high.to_rgb();
    assert_eq!(FilterConfigColorValue::from_rgb(r.0, r.1, r.2).0, 0xFF00_0010 & 0xFF_FFFF);
    let v: u32 = FilterConfigColorValue::from(7u32).into();
    assert_eq!(v, 7);
}

#[test]
fn config_groups() {
    let g = FilterConfigGroup::start("G".to_string());
    assert_eq!(g.name.as_deref(), Some("G"));
    assert!(g.opened);
    let closed = FilterConfigGroup::start_with_opened("H".to_string(), false);
    assert!(!closed.opened);
    let end = FilterConfigGroup::end();
    assert!(end.name.is_none() && !end.opened);
}

#[test]
fn config_item_type_tags() {
    let kinds = [
        FilterConfigItemKind::Track,
        FilterConfigItemKind::Checkbox,
        FilterConfigItemKind::Color,
        FilterConfigItemKind::Select,
        FilterConfigItemKind::File,
        FilterConfigItemKind::String,
        FilterConfigItemKind::Text,
        FilterConfigItemKind::Folder,
        FilterConfigItemKind::Data,
        FilterConfigItemKind::Group,
        FilterConfigItemKind::Separator,
        FilterConfigItemKind::Button,
    ];
    for k in kinds {
        assert_eq!(FilterConfigItemKind::from_type_tag(k.type_tag()), Some(k));
    }
    assert_eq!(FilterConfigItemKind::Checkbox.type_tag(), "check");
    assert_eq!(FilterConfigItemKind::from_type_tag("checkbox"), None);
}

#[test]
fn audio_channel_numbers() {
    assert_eq!(AudioChannel::from(0), AudioChannel::Left);
    assert_eq!(AudioChannel::from(1), AudioChannel::Right);
    assert_eq!(AudioChannel::from(5), AudioChannel::Any(5));
    assert_eq!(i32::from(AudioChannel::Any(-3)), -3);
    assert_eq!(i32::from(AudioChannel::from(1)), 1);
    assert_eq!(AudioChannel::from(i32::from(AudioChannel::Any(0))), AudioChannel::Left);
}

#[test]
fn pixel_tuples() {
    let p = RgbaPixel::from((1, 2, 3, 4));
    assert_eq!(p, RgbaPixel { r: 1, g: 2, b: 3, a: 4 });
    let t: (u8, u8, u8, u8) = p.into();
    assert_eq!(t, (1, 2, 3, 4));
}

#[test]
fn drawing_mode_defaults() {
    assert_eq!(BlendMode::default(), BlendMode::Normal);
    assert_eq!(SamplerMode::default(), SamplerMode::Clip);
    assert_eq!(BillboardMode::default(), BillboardMode::Standard);
    assert_eq!(BlendStateMode::default(), BlendStateMode::Copy);
}

#[test]
fn image_byte_lengths() {
    assert_eq!(image_data_byte_len(16, 3).unwrap(), 48);
    assert!(matches!(
        image_data_byte_len(u32::MAX, u32::MAX),
        Ok(_) | Err(FilterProcError::ValueOutOfRange)
    ));
    let e = FilterProcError::ValueOutOfRange;
    assert_eq!(e.message(), "value is out of range");
    assert_eq!(FilterProcError::ApiCallFailed.message(), "api call failed");
}

#[test]
fn scene_and_object_info_from_raw_numbers() {
    let scene = SceneInfo::from_raw(&RawSceneInfo {
        width: 1280,
        height: 720,
        rate: 60,
        scale: -2,
        sample_rate: 44100,
    });
    assert_eq!((scene.width, scene.height, scene.sample_rate), (1280, 720, 44100));
    assert_eq!((*scene.frame_rate.numer(), *scene.frame_rate.denom()), (-30, 1));
    let raw = RawObjectInfo {
        width: 200,
        height: 100,
        index: 1,
        num: 0,
        sample_index: 4800,
        sample_total: 96000,
        sample_num: 480,
        channel_num: 2,
    };
    let video = VideoObjectInfo::from_raw(&raw);
    assert_eq!((video.width, video.height, video.index, video.num), (200, 100, 1, None));
    let video = VideoObjectInfo::from_raw(&RawObjectInfo { num: 3, ..raw });
    assert_eq!(video.num, Some(3));
    let audio = AudioObjectInfo::from_raw(&raw);
    assert_eq!(
        (audio.sample_index, audio.sample_total, audio.sample_num, audio.channel_num),
        (4800, 96000, 480, 2)
    );
}

#[test]
fn texts_convert_to_image_resources() {
    assert_eq!(
        "cache:x".as_draw_image_resource(),
        Some(DrawImageResource::CacheBuffer("x".to_string()))
    );
    assert_eq!(
        "framebuffer".to_string().as_readable_image_resource(),
        Some(ReadableImageResource::Framebuffer)
    );
    assert_eq!("framebuffer".as_writable_image_resource(), None);
    assert_eq!("random".as_shader_target_resource(), None);
    assert_eq!(
        aviutl2::filter::parse_writable("resource:a:b"),
        Some(WritableImageResource::Resource("a:b".to_string()))
    );
    assert_eq!(aviutl2::filter::parse_draw("nothing"), None);
    assert_eq!(
        aviutl2::filter::parse_shader("tempbuffer"),
        Some(ShaderTargetResource::TempBuffer)
    );
    assert_eq!(
        aviutl2::filter::parse_readable("image:/a.png"),
        Some(ReadableImageResource::ImageFile("/a.png".to_string()))
    );
}

#[test]
fn resource_name_errors_come_from_the_first_name_with_nul() {
    let resources = vec![
        ReadableImageResource::Object,
        ReadableImageResource::CacheBuffer("ab\0c".to_string()),
        ReadableImageResource::Resource("\0".to_string()),
    ];
    match readable_resource_names(&resources) {
        Err(FilterProcError::InputCwstrContainsNull(e)) => {
            assert_eq!(e.nul_position(), 8);
            let expected: Vec<u16> = "cache:ab\0c".encode_utf16().collect();
            assert_eq!(e.into_vec(), expected);
        }
        _ => panic!("expected a NUL error"),
    }
    let targets = vec![
        ShaderTargetResource::Resource("x\0".to_string()),
        ShaderTargetResource::CacheBuffer("\0".to_string()),
    ];
    match shader_target_names(&targets) {
        Err(FilterProcError::InputCwstrContainsNull(e)) => {
            assert_eq!(e.nul_position(), 10);
            let expected: Vec<u16> = "resource:x\0".encode_utf16().collect();
            assert_eq!(e.into_vec(), expected);
        }
        _ => panic!("expected a NUL error"),
    }
}

#[test]
fn select_entries_and_data_sizes() {
    use_select_entries();
    assert_eq!(aviutl2::filter::data_size_from_raw(1024), Some(1024));
    assert_eq!(aviutl2::filter::data_size_from_raw(1025), None);
    assert_eq!(aviutl2::filter::data_size_from_raw(-1), None);
    assert_eq!(aviutl2::filter::data_size_to_raw(0), Some(0));
    assert_eq!(aviutl2::filter::data_size_to_raw(1025), None);
}

fn use_select_entries() {
    let items = vec![
        aviutl2::filter::FilterConfigSelectItem { name: "A".to_string(), value: 3 },
        aviutl2::filter::FilterConfigSelectItem { name: "B".to_string(), value: -1 },
    ];
    assert_eq!(
        aviutl2::filter::select_item_entries(&items),
        vec![(Some("A".to_string()), 3), (Some("B".to_string()), -1), (None, 0)]
    );
}
