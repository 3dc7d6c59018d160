//! Generic plugins: what the host's edit handle reports about effects,
//! modules and the editing state, and the project's layers and objects.

pub mod edit_handle;
pub mod edit_section;
pub mod effect_flag;
pub mod host_app;
pub mod project;

pub use edit_handle::{
    edit_state_from_raw, effect_from_raw, effect_item_info_from_raw, module_info_from_raw,
    EditHandleError, EditState, Effect, EffectItemInfo, EffectItemType, EffectType, ModuleInfo,
    ModuleType,
};
pub use edit_section::{
    effect_key, grid_bpm_count, index_from_raw, index_to_raw, listed_len,
    object_layer_frame_from_raw, optional_index_from_raw, selected_frame_from_raw, written_len,
    EditInfo, EditSectionError,
    EditSectionLayerCaller, EditSectionLayerObjectsIterator, EditSectionLayersIterator,
    LayerFrameData, MediaFileSupportMode, ObjectLayerFrame, PaletteColor, PaletteInfo,
    RawEditInfo,
};
pub use effect_flag::EffectFlag;
pub use project::{
    chunk_key, check_binary_param, check_string_param, collect_stored_chunks, decompress_stored,
    parse_usize, rmp_header, rmp_header_length, split_into_param_chunks, zstd_chunk_key,
    zstd_header_length, ChunkCollector, ProjectFileError, ProjectFileSerdeError,
};
pub use host_app::{plugin_information_text, prefixed_information_text, GenericPluginTable};
