//! A safe layer over a native image-loading library.
//!
//! The native library itself (image decoding, surface and texture
//! construction) is a black box reached through C calls; everything around
//! those calls is verified here: translation of null results and status
//! codes into error values, the release-exactly-once discipline for owned
//! native handles, the mapping between codec-backend flags and the native
//! init bitmask, conversion of paths to null-terminated byte strings, and
//! the rendering of the linked library's version.
//!
//! The capability traits below are implemented by the code that performs
//! the native calls; their verified building blocks (`cstr::to_c_bytes`,
//! the `from_load_result` constructors and `save_result` in `resource`, and
//! the flag helpers in `flags`) carry the contracts those implementations
//! lean on.

use vstd::prelude::*;

pub mod cstr;
pub mod errors;
pub mod flags;
pub mod resource;
pub mod version;

pub use crate::errors::ImageError;
pub use crate::flags::InitFlag;
pub use crate::resource::NativeHandle;
pub use crate::resource::Surface;
pub use crate::resource::Texture;
pub use crate::version::ImageVersion;

verus! {

/// Constructing an owned image resource, either from a file on disk or from
/// an in-memory XPM string array (one string per pixel row). Implementations
/// call into the native library: a path or row that cannot become a
/// null-terminated byte string fails before any native call, and a null
/// native result becomes a load error carrying the native last-error text.
pub trait ImageLoader<T>: Sized {
    fn from_file(filename: &str) -> Result<T, ImageError>;

    fn from_xpm_array(xpm: &Vec<String>) -> Result<T, ImageError>;
}

/// Serializing an owned image resource back to a file. Implementations call
/// the native save function; a non-zero status becomes a save error carrying
/// the native last-error text.
pub trait ImageSaver {
    fn save(&self, filename: &str) -> Result<(), ImageError>;
}

/// Producing a caller-owned texture resource directly from an image file.
/// The receiver is a borrowed rendering context; the returned texture must
/// be released exactly once and must not outlive that context.
pub trait TextureLoader {
    fn load_texture_from_file(&self, filename: &str) -> Result<Texture, ImageError>;
}

} // verus!
