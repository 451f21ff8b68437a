//! The monitor of one configuration file: its path, its poll interval and
//! the store that holds the decoded value.

use vstd::prelude::*;
use crate::error::ConfigError;
use crate::store::ConfigStore;
use crate::watcher::{started, Watcher};

verus! {

/// Seconds between two polls where the caller names no interval.
pub const DEFAULT_RECHECK_DELAY_SECONDS: u64 = 300;

/// The poll interval that a monitor built with `requested` has.
pub open spec fn effective_delay(requested: Option<u64>) -> u64 {
    match requested {
        Some(seconds) => seconds,
        None => DEFAULT_RECHECK_DELAY_SECONDS,
    }
}

/// A monitor as a mathematical value.
pub struct ConfigMonitorView<T> {
    /// Path of the monitored file.
    pub filename: Seq<char>,
    /// Seconds between two polls.
    pub interval: u64,
    /// The value that the store holds.
    pub data: T,
}

/// One monitored file with the value decoded from it.
///
/// A monitor exists only around a value that was decoded successfully: the
/// store is never empty and never holds a half-built value.
#[derive(Debug)]
pub struct ConfigMonitor<T> {
    filename: String,
    recheck_delay_seconds: u64,
    data: ConfigStore<T>,
}

impl<T> View for ConfigMonitor<T> {
    type V = ConfigMonitorView<T>;

    closed spec fn view(&self) -> ConfigMonitorView<T> {
        ConfigMonitorView {
            filename: self.filename@,
            interval: self.recheck_delay_seconds,
            data: self.data@,
        }
    }
}

impl<T> ConfigMonitor<T> {
    /// Builds the monitor of `filename` from the outcome `loaded` of the
    /// first read and decode of that file.
    ///
    /// A failed load fails the construction with the same error, and no
    /// monitor comes to exist. Without a requested interval the monitor
    /// polls every [`DEFAULT_RECHECK_DELAY_SECONDS`] seconds.
    pub fn new(filename: &str, recheck_delay_seconds: Option<u64>, loaded: Result<T, ConfigError>) -> (built: Result<Self, ConfigError>)
        ensures
            match loaded {
                Ok(value) => built is Ok && built->Ok_0@ == (ConfigMonitorView {
                    filename: filename@,
                    interval: effective_delay(recheck_delay_seconds),
                    data: value,
                }),
                Err(error) => built is Err && built->Err_0 == error,
            },
    {
        match loaded {
            Ok(value) => Ok(
                ConfigMonitor {
                    filename: filename.to_owned(),
                    recheck_delay_seconds: match recheck_delay_seconds {
                        Some(seconds) => seconds,
                        None => DEFAULT_RECHECK_DELAY_SECONDS,
                    },
                    data: ConfigStore::new(value),
                },
            ),
            Err(error) => Err(error),
        }
    }

    /// Path of the monitored file.
    pub fn filename(&self) -> (name: &str)
        ensures
            name@ == self@.filename,
    {
        self.filename.as_str()
    }

    /// Seconds between two polls.
    pub fn recheck_delay_seconds(&self) -> (seconds: u64)
        ensures
            seconds == self@.interval,
    {
        self.recheck_delay_seconds
    }

    /// The store with the current value.
    pub fn data(&self) -> (store: &ConfigStore<T>)
        ensures
            store@ == self@.data,
    {
        &self.data
    }

    /// Takes the monitor apart into its path, its poll interval and its
    /// store, for a program that shares the store between tasks.
    pub fn into_parts(self) -> (parts: (String, u64, ConfigStore<T>))
        ensures
            parts.0@ == self@.filename,
            parts.1 == self@.interval,
            parts.2@ == self@.data,
    {
        (self.filename, self.recheck_delay_seconds, self.data)
    }

    /// Starts watching the file, with `first_seen` as the reading of its
    /// modification time taken at the start, in seconds since the epoch.
    ///
    /// The store comes back untouched beside the watcher, which from now on
    /// is the only one to replace its value.
    pub fn monitor(self, first_seen: Result<u64, ConfigError>) -> (running: (Watcher, ConfigStore<T>))
        ensures
            running.0@ == started(self@.filename, self@.interval, first_seen),
            running.1@ == self@.data,
    {
        let watcher = Watcher::new(self.filename.as_str(), self.recheck_delay_seconds, first_seen);
        (watcher, self.data)
    }
}

} // verus!
