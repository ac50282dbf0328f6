//! Synchronisation and caching core for a client of a remote game-asset catalog.
pub mod catalog;
pub mod champion;
pub mod freshness;
pub mod mtime_format;
pub mod plugin;
pub mod sync;

pub use catalog::{entity_ids, CatalogError, ErrorKind, Fetched};
pub use champion::{Champion, PlaystyleInfo, TacticalInfo};
pub use mtime_format::Timestamp;
pub use plugin::{Plugin, PluginKind, PluginName};
pub use freshness::{freshness, Status, StatusCheck};
pub use sync::{CDragon, Config, UpdateError, UpdateEvent, UpdateRun, UpdateStage};
