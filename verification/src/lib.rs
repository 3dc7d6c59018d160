//! Plugin-side building blocks for the AviUtl2 host: version numbers, pixel and
//! colour conversions, wide strings, filter configuration values, enum codes
//! exchanged with the host, and the byte layouts of frames and audio.

pub mod cache;
pub mod common;
pub mod filter;
pub mod generic;
pub mod input;
pub mod logger;
pub mod output;
pub mod utils;
pub mod text;

pub use common::{
    ensure_minimum_aviutl2_version, format_file_filters, minimum_aviutl2_version,
    registered_effect_name, AviUtl2Info, AviUtl2Version, CWString, FileFilter, NullByteError,
    Rational32, UnsupportedVersionError, Yc48, MINIMUM_AVIUTL2_VERSION_NUMBER,
};
