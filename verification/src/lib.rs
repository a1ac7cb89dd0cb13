//! Verified core of the DungeonRS map editor: the asset library registry, asset pack
//! bookkeeping, the project hierarchy and its persistence documents, and the small
//! pieces of configuration and localisation logic that the editor and CLI share.

mod str_map;

pub use str_map::StrMap;
pub mod hashing;
pub mod paths;
pub mod pack;
pub mod library;
pub mod hierarchy;
pub mod document;
pub mod spawn;
pub mod channel;
pub mod config;
pub mod i18n;
pub mod messages;
pub mod indexing;
pub mod scripting;
pub mod cli;
pub mod crash;
