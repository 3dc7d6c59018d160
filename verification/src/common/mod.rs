//! Types and helpers shared by every plugin kind.

pub mod file_filter;
pub mod rational;
pub mod version;
pub mod wide;
pub mod yc48;

pub use file_filter::{format_file_filters, FileFilter};
pub use version::{
    ensure_minimum_aviutl2_version, registered_effect_name, AviUtl2Info, AviUtl2Version,
    UnsupportedVersionError, minimum_aviutl2_version, MINIMUM_AVIUTL2_VERSION_NUMBER,
};
pub use wide::{CWString, NullByteError};
pub use yc48::Yc48;
pub use num_rational::Rational32;
