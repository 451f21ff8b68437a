//! Keeps a decoded configuration value in step with its backing file.
//!
//! The crate is the decision core of a polling configuration reloader. It
//! performs no I/O: the embedding program reads the file, decodes it and
//! sleeps, and tells the core what it saw. The core answers with what to do
//! next and keeps the published value.

pub mod error;
pub mod laws;
pub mod monitor;
pub mod store;
pub mod trace;
pub mod watcher;

pub use crate::error::ConfigError;
pub use crate::monitor::{ConfigMonitor, DEFAULT_RECHECK_DELAY_SECONDS};
pub use crate::store::ConfigStore;
pub use crate::trace::Event;
pub use crate::watcher::{Action, Watcher, WatcherState};
