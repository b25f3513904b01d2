//! A binary signature patcher: it finds a short byte signature in a module's
//! image, overwrites it in place with a replacement of the same length, and
//! can put the saved original back.
//!
//! The library touches no file. [`PatchEngine`] works on images held in
//! memory; the stages of [`session`] lead a host through the same patch on
//! disk, one file operation at a time.

pub mod engine;
pub mod error;
pub mod image;
pub mod laws;
pub mod pattern;
pub mod resolver;
pub mod search;
pub mod service;
pub mod session;
pub mod status;
pub mod store;
pub mod text;
pub mod updates;

pub use engine::PatchEngine;
pub use error::PatchError;
pub use pattern::PatchPattern;
pub use resolver::WinBuild;
pub use status::AppStatus;
pub use store::ModuleFiles;
