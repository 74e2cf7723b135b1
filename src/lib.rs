//! Verified decision logic around the native codec library's resource
//! handles: error translation, option text checks, status rules, handle
//! construction and release, codec identifiers and frame plane tables.
//! The native calls themselves are made by the thin driver crate in `app/`.

pub mod error;
pub mod translate;
pub mod status;
pub mod handle;
pub mod codec;
pub mod frame;
