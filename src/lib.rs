//! Cross-platform utilities for querying information about the host operating
//! system: version numbers, and the release names that they stand for.
pub mod decimal;
pub mod info;
pub mod version;

pub use info::{OsInfo, OsMeta, Platform};
pub use version::{OsVersion, Version};
