use aviutl2::generic::{
    index_from_raw, index_to_raw, listed_len, object_layer_frame_from_raw, optional_index_from_raw,
    EditSectionError,
};
use aviutl2::generic::{
    edit_state_from_raw, effect_from_raw, effect_item_info_from_raw, effect_key,
    module_info_from_raw, selected_frame_from_raw, EditHandleError, EditSectionLayerCaller,
    EditSectionLayersIterator, EditState, EffectFlag, EffectItemInfo, EffectItemType, EffectType,
    ModuleType, ObjectLayerFrame,
};

#[test]
fn effect_item_type_try_from_known_values() {
    assert_eq!(EffectItemType::try_from(1), Ok(EffectItemType::Integer));
    assert_eq!(EffectItemType::try_from(8), Ok(EffectItemType::Select));
    assert_eq!(EffectItemType::try_from(16), Ok(EffectItemType::Folder));
}

#[test]
fn effect_item_type_try_from_unknown_value_fails() {
    assert_eq!(EffectItemType::try_from(999), Err(()));
}

#[test]
fn effect_item_type_into_i32() {
    assert_eq!(i32::from(EffectItemType::Integer), 1);
    assert_eq!(i32::from(EffectItemType::Combo), 11);
    assert_eq!(i32::from(EffectItemType::Folder), 16);
}

#[test]
fn effect_item_info_from_raw_returns_none_for_unknown_type() {
    assert_eq!(effect_item_info_from_raw("test".to_string(), 999), None);
}

#[test]
fn effect_item_info_from_raw_builds_info_for_known_type() {
    assert_eq!(
        effect_item_info_from_raw("test".to_string(), 4),
        Some(EffectItemInfo {
            name: "test".to_string(),
            item_type: EffectItemType::Text,
        })
    );
}

#[test]
fn module_type_try_from_unknown_value_fails() {
    assert_eq!(ModuleType::try_from(999), Err(()));
}

#[test]
fn edit_state_try_from_unknown_value_fails() {
    assert_eq!(EditState::try_from(999), Err(()));
}

#[test]
fn codes_round_trip() {
    for v in 1..=5 {
        let t = EffectType::try_from(v).unwrap();
        assert_eq!(i32::from(t), v);
    }
    for v in 1..=16 {
        assert_eq!(i32::from(EffectItemType::try_from(v).unwrap()), v);
    }
    for v in 1..=9 {
        assert_eq!(i32::from(ModuleType::try_from(v).unwrap()), v);
    }
    for v in 0..=2 {
        assert_eq!(i32::from(EditState::try_from(v).unwrap()), v);
    }
    assert_eq!(EffectType::try_from(0), Err(()));
    assert_eq!(EffectType::try_from(6), Err(()));
    assert_eq!(ModuleType::try_from(0), Err(()));
    assert_eq!(EditState::try_from(-1), Err(()));
}

#[test]
fn edit_state_errors() {
    assert_eq!(edit_state_from_raw(1).unwrap(), EditState::Preview);
    let e = edit_state_from_raw(7).unwrap_err();
    assert!(matches!(e, EditHandleError::UnknownEditState(7)));
    assert_eq!(e.message(), "unknown edit state: 7");
    assert_eq!(
        EditHandleError::UnknownEditState(-12).message(),
        "unknown edit state: -12"
    );
    assert_eq!(EditHandleError::EffectNotFound.message(), "effect does not exist");
}

#[test]
fn effects_and_modules_from_raw() {
    let e = effect_from_raw("Blur".to_string(), 1, 1 | 4).unwrap();
    assert_eq!(e.effect_type, EffectType::Filter);
    assert!(e.flag.video && e.flag.as_filter && !e.flag.audio && !e.flag.camera);
    assert_eq!(effect_from_raw("X".to_string(), 9, 0), None);
    let m = module_info_from_raw(6, "in".to_string(), "info".to_string()).unwrap();
    assert_eq!(m.module_type, ModuleType::PluginInput);
    assert_eq!(m.information, "info");
    assert_eq!(module_info_from_raw(10, String::new(), String::new()), None);
}

#[test]
fn effect_flag_bits() {
    let f = EffectFlag::from_bits(2 | 8);
    assert!(f.audio && f.camera && !f.video && !f.as_filter);
    assert_eq!(f.to_bits(), 10);
    assert_eq!(f.to_display_string(), "EffectFlag(audio | camera)");
    assert_eq!((f | EffectFlag::from_bits(1)).to_bits(), 11);
}

#[test]
fn effect_keys() {
    assert_eq!(effect_key("Blur", 0), "Blur:0");
    assert_eq!(effect_key("a:b", 12), "a:b:12");
}

#[test]
fn object_frame_ranges() {
    let lf = ObjectLayerFrame { layer: 2, start: 10, end: 19 };
    assert_eq!(lf.frame_range(), 10..20);
    assert_eq!(lf.frame_range_inclusive(), 10..=19);
    assert_eq!(lf.frame_range().len(), 10);
}

#[test]
fn selected_frames() {
    assert_eq!(selected_frame_from_raw(-1), None);
    assert_eq!(selected_frame_from_raw(0), Some(0));
    assert_eq!(selected_frame_from_raw(42), Some(42));
}

#[test]
fn layer_walks() {
    let section = ();
    let mut layers = EditSectionLayersIterator::new(&section, 2);
    assert_eq!(layers.size_hint(), (3, Some(3)));
    assert_eq!(layers.next_layer().unwrap().index, 0);
    assert_eq!(layers.next_back_layer().unwrap().index, 2);
    assert_eq!(layers.size_hint(), (1, Some(1)));
    assert_eq!(layers.next_layer().unwrap().index, 1);
    assert!(layers.next_layer().is_none());
    assert!(layers.next_back_layer().is_none());
    assert_eq!(layers.size_hint(), (0, Some(0)));

    let caller = EditSectionLayerCaller::new(&section, 4);
    let mut objects = caller.objects();
    assert_eq!(objects.layer_index(), 4);
    assert_eq!(objects.search_frame(), 0);
    objects.record_found(&ObjectLayerFrame { layer: 4, start: 0, end: 9 });
    assert_eq!(objects.search_frame(), 10);
    objects.record_found(&ObjectLayerFrame { layer: 4, start: 5, end: usize::MAX });
    assert_eq!(objects.search_frame(), usize::MAX);
}

#[test]
fn plugin_information_text_marks_debug_builds() {
    assert_eq!(
        aviutl2::generic::plugin_information_text("My Plugin v1", false),
        "My Plugin v1"
    );
    assert_eq!(
        aviutl2::generic::plugin_information_text("My Plugin v1", true),
        "My Plugin v1 (Debug Build)"
    );
}

#[test]
fn edit_section_raw_numbers() {
    assert_eq!(index_from_raw(7).unwrap(), 7);
    assert!(matches!(index_from_raw(-1), Err(EditSectionError::ValueOutOfRange)));
    assert_eq!(index_to_raw(12).unwrap(), 12);
    assert!(matches!(
        index_to_raw(i32::MAX as usize + 1),
        Err(EditSectionError::ValueOutOfRange)
    ));
    assert_eq!(optional_index_from_raw(-1).unwrap(), None);
    assert_eq!(optional_index_from_raw(30).unwrap(), Some(30));
    assert!(matches!(optional_index_from_raw(-2), Err(EditSectionError::ValueOutOfRange)));
    let f = object_layer_frame_from_raw(2, 10, 20).unwrap();
    assert_eq!((f.layer, f.start, f.end), (2, 10, 20));
    assert!(object_layer_frame_from_raw(2, -10, 20).is_err());
    assert_eq!(listed_len(3, 3).unwrap(), 3);
    assert!(matches!(listed_len(0, 0), Err(EditSectionError::ApiCallFailed)));
    assert!(matches!(listed_len(3, 2), Err(EditSectionError::ApiCallFailed)));
}

#[test]
fn edit_section_error_messages() {
    assert_eq!(EditSectionError::ApiCallFailed.message(), "api call failed");
    assert_eq!(EditSectionError::ObjectDoesNotExist.message(), "object does not exist");
    assert_eq!(EditSectionError::ValueOutOfRange.message(), "value is out of range");
    assert_eq!(EditSectionError::NonUtf8Data(3).message(), "api returned non-utf8 data");
    let nul = aviutl2::common::CWString::new("a\0b").unwrap_err();
    let e: EditSectionError = nul.into();
    assert_eq!(e.message(), "input utf-16 string contains null byte");
}

#[test]
fn edit_info_from_raw_numbers() {
    let raw = aviutl2::generic::RawEditInfo {
        width: 1920,
        height: 1080,
        rate: 60000,
        scale: 2002,
        sample_rate: 48000,
        frame: 12,
        layer: 3,
        frame_max: 900,
        layer_max: 9,
        display_frame_start: 0,
        display_layer_start: 1,
        display_frame_num: 300,
        display_layer_num: 12,
        select_range_start: -1,
        select_range_end: 40,
        scene_id: 2,
    };
    let info = aviutl2::generic::EditInfo::from_raw(&raw);
    assert_eq!((info.width, info.height, info.sample_rate), (1920, 1080, 48000));
    assert_eq!((*info.fps.numer(), *info.fps.denom()), (30000, 1001));
    assert_eq!((info.frame, info.layer, info.frame_max, info.layer_max), (12, 3, 900, 9));
    assert_eq!(info.display_layer_start, 1);
    assert_eq!(info.display_frame_num, 300);
    assert_eq!(info.select_range_start, None);
    assert_eq!(info.select_range_end, Some(40));
    assert_eq!(info.scene_id, 2);
}

#[test]
fn host_answer_counts() {
    use_counts();
}

fn use_counts() {
    assert_eq!(aviutl2::generic::written_len(4, 3).unwrap(), 3);
    assert_eq!(aviutl2::generic::written_len(4, 4).unwrap(), 4);
    assert!(matches!(aviutl2::generic::written_len(4, 5), Err(EditSectionError::ApiCallFailed)));
    assert!(matches!(
        aviutl2::generic::written_len(4, -1),
        Err(EditSectionError::ValueOutOfRange)
    ));
    assert_eq!(aviutl2::generic::grid_bpm_count(0), None);
    assert_eq!(aviutl2::generic::grid_bpm_count(-3), None);
    assert_eq!(aviutl2::generic::grid_bpm_count(2), Some(2));
}

#[test]
fn debug_marker_in_front() {
    assert_eq!(aviutl2::generic::prefixed_information_text("Reader", false), "Reader");
    assert_eq!(
        aviutl2::generic::prefixed_information_text("Reader", true),
        "(Debug Build) Reader"
    );
}
