//! Filter plugins: plugin flags, scene and object information, pixel formats,
//! setting items, and the image resources that drawing calls name.

pub mod config;
pub mod flags;
pub mod info;
pub mod resource;

pub use crate::common::{
    format_file_filters, AviUtl2Info, AviUtl2Version, CWString, FileFilter, NullByteError,
    Rational32, Yc48,
};
pub use config::{
    data_size_from_raw, data_size_to_raw, select_item_entries, FilterConfigCheckbox,
    FilterConfigColor, FilterConfigColorValue, FilterConfigFile, FilterConfigFolder,
    FilterConfigGroup, FilterConfigItemKind, FilterConfigSelect, FilterConfigSelectItem,
    FilterConfigSelectItems, FilterConfigSeparator, FilterConfigString, FilterConfigText,
    MAX_DATA_SIZE,
};
pub use flags::FilterPluginFlags;
pub use info::{
    image_data_byte_len, readable_resource_names, shader_target_names, AudioChannel,
    AudioObjectInfo, BillboardMode, BlendMode, BlendStateMode, FilterPluginTable, FilterProcError,
    InputImageResourcePixelFormat, OutputImageResourcePixelFormat, RawObjectInfo, RawSceneInfo,
    RgbaPixel, SamplerMode, SceneInfo, VideoObjectInfo,
};
pub use resource::{
    parse_draw, parse_readable, parse_shader, parse_writable, AsImageResource,
    DrawImageResource, ReadableImageResource, ShaderTargetResource, WritableImageResource,
};
