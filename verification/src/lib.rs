//! Verified core of the Saga mod standard library.
//!
//! Saga mods call a small set of `saga:*` host imports. Every host call
//! answers with a sentinel-coded integer; this crate holds the logic that
//! turns those answers into typed results, the buffer policies around the
//! calls, and the text the library hands to the host log. The host calls
//! themselves are made by the thin host-facing layer of the crate family.
//!
//! - [`assets`]  — asset handles and the interpretation of asset reads.
//! - [`bump`]    — the allocation policy of the bump allocator.
//! - [`log`]     — severity codes and the bounded log-message buffer.
//! - [`storage`] — save-file status codes and the growing fetch buffer.
//! - [`thread`]  — worker spawn results.
//! - [`text`]    — UTF-8 checking and decimal rendering.

pub mod assets;
pub mod bump;
pub mod log;
pub mod storage;
pub mod text;
pub mod thread;

pub use crate::assets::{AssetError, AssetHandle, AssetResult, ReadStep};
pub use crate::log::{emit, LogBuffer, LogLevel};
pub use crate::storage::{StorageError, StorageResult};
pub use crate::thread::{ThreadError, ThreadResult};
