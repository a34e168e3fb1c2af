//! Type-safe marshaling between typed socket-option values and the untyped
//! byte-buffer/length protocol of the kernel's get/set socket-option calls.
//!
//! The crate targets the 64-bit Linux family: option numbers, the size of the
//! native C `int`, and the little-endian buffer layout are those of that
//! platform, and an option another platform family would gate out simply has
//! no identifier here.

pub mod access;
pub mod bytes;
pub mod encoding;
pub mod error;
pub mod laws;
pub mod registry;
pub mod values;
