//! The poll loop's decisions: when to reload, when to sleep, when to stop.

use vstd::prelude::*;
use crate::error::ConfigError;
use crate::store::ConfigStore;

verus! {

/// Where the watcher stands in its poll loop.
#[derive(Clone, Copy, Debug, PartialEq, Eq, Structural)]
pub enum WatcherState {
    /// Running, and waiting for the next reading of the modification time.
    Polling,
    /// Running, and waiting for the file to be read and decoded again.
    Reloading,
    /// Stopped for good by the failure it holds.
    Terminated(ConfigError),
}

/// What the embedding program has to do next.
#[derive(Clone, Copy, Debug, PartialEq, Eq, Structural)]
pub enum Action {
    /// Read and decode the file, then report the outcome with
    /// [`Watcher::publish`].
    Reload,
    /// Wait for this many seconds, then read the modification time and
    /// report it with [`Watcher::observe`].
    Sleep(u64),
    /// The watcher has stopped with this failure: do nothing more.
    Stop(ConfigError),
}

/// The watcher as a mathematical value.
pub struct WatcherView {
    /// Path of the watched file.
    pub filename: Seq<char>,
    /// Seconds to wait between two readings of the modification time.
    pub interval: u64,
    /// The modification time last acted upon, in seconds since the epoch.
    pub last_seen: u64,
    /// Where the watcher stands.
    pub state: WatcherState,
}

/// The watcher that starts on `filename` with the reading `first_seen`.
///
/// A reading that failed stops the watcher before its first poll.
pub open spec fn started(
    filename: Seq<char>,
    interval: u64,
    first_seen: Result<u64, ConfigError>,
) -> WatcherView {
    match first_seen {
        Ok(seen) => WatcherView { filename, interval, last_seen: seen, state: WatcherState::Polling },
        Err(error) => WatcherView {
            filename,
            interval,
            last_seen: 0,
            state: WatcherState::Terminated(error),
        },
    }
}

/// The watcher after it was told the reading `current`.
///
/// Only a polling watcher listens. A reading that differs from the one last
/// acted upon is recorded and asks for a reload; an equal one changes
/// nothing; a failed one stops the watcher.
pub open spec fn observed(w: WatcherView, current: Result<u64, ConfigError>) -> WatcherView {
    match (w.state, current) {
        (WatcherState::Polling, Ok(seen)) => if seen != w.last_seen {
            WatcherView { last_seen: seen, state: WatcherState::Reloading, ..w }
        } else {
            w
        },
        (WatcherState::Polling, Err(error)) => WatcherView {
            state: WatcherState::Terminated(error),
            ..w
        },
        _ => w,
    }
}

/// The watcher after it was told the outcome `loaded` of a reload.
///
/// Only a reloading watcher listens. A decoded value sends it back to
/// polling; a failure stops it.
pub open spec fn reloaded<T>(w: WatcherView, loaded: Result<T, ConfigError>) -> WatcherView {
    match (w.state, loaded) {
        (WatcherState::Reloading, Ok(_)) => WatcherView { state: WatcherState::Polling, ..w },
        (WatcherState::Reloading, Err(error)) => WatcherView {
            state: WatcherState::Terminated(error),
            ..w
        },
        _ => w,
    }
}

/// The stored value after a watcher `w` was told the outcome `loaded` of a
/// reload: the decoded value if `w` was reloading and there is one, else the
/// value `current` that was there before.
pub open spec fn published<T>(w: WatcherView, current: T, loaded: Result<T, ConfigError>) -> T {
    match (w.state, loaded) {
        (WatcherState::Reloading, Ok(value)) => value,
        _ => current,
    }
}

/// What a watcher in state `w` answers to the event that brought it there:
/// sleep and poll again, reload, or stop.
pub open spec fn pending(w: WatcherView) -> Action {
    match w.state {
        WatcherState::Polling => Action::Sleep(w.interval),
        WatcherState::Reloading => Action::Reload,
        WatcherState::Terminated(error) => Action::Stop(error),
    }
}

/// The state of one file's poll loop.
///
/// The watcher belongs to the task that runs the loop and to nobody else.
/// That task reads the modification time and tells [`Watcher::observe`];
/// when asked to reload it reads and decodes the file and tells
/// [`Watcher::publish`]; when asked to sleep it sleeps and polls again.
#[derive(Debug)]
pub struct Watcher {
    filename: String,
    recheck_delay_seconds: u64,
    last_seen: u64,
    state: WatcherState,
}

impl View for Watcher {
    type V = WatcherView;

    closed spec fn view(&self) -> WatcherView {
        WatcherView {
            filename: self.filename@,
            interval: self.recheck_delay_seconds,
            last_seen: self.last_seen,
            state: self.state,
        }
    }
}

impl Watcher {
    /// Starts a watcher on `filename` that polls every
    /// `recheck_delay_seconds` seconds, with `first_seen` as the reading of
    /// the modification time taken at the start. The first poll follows at
    /// once, without a sleep before it.
    pub fn new(filename: &str, recheck_delay_seconds: u64, first_seen: Result<u64, ConfigError>) -> (watcher: Self)
        ensures
            watcher@ == started(filename@, recheck_delay_seconds, first_seen),
    {
        match first_seen {
            Ok(seen) => Watcher {
                filename: filename.to_owned(),
                recheck_delay_seconds,
                last_seen: seen,
                state: WatcherState::Polling,
            },
            Err(error) => Watcher {
                filename: filename.to_owned(),
                recheck_delay_seconds,
                last_seen: 0,
                state: WatcherState::Terminated(error),
            },
        }
    }

    /// Path of the watched file.
    pub fn filename(&self) -> (name: &str)
        ensures
            name@ == self@.filename,
    {
        self.filename.as_str()
    }

    /// Seconds to wait between two readings of the modification time.
    pub fn recheck_delay_seconds(&self) -> (seconds: u64)
        ensures
            seconds == self@.interval,
    {
        self.recheck_delay_seconds
    }

    /// The modification time last acted upon, in seconds since the epoch.
    pub fn last_seen(&self) -> (seconds: u64)
        ensures
            seconds == self@.last_seen,
    {
        self.last_seen
    }

    /// Where the watcher stands.
    pub fn state(&self) -> (state: WatcherState)
        ensures
            state == self@.state,
    {
        self.state
    }

    /// Whether the watcher has not stopped.
    pub fn is_running(&self) -> (running: bool)
        ensures
            running == !(self@.state is Terminated),
    {
        match self.state {
            WatcherState::Terminated(_) => false,
            _ => true,
        }
    }

    /// The answer that the watcher gives as it stands.
    fn answer(&self) -> (action: Action)
        ensures
            action == pending(self@),
    {
        match self.state {
            WatcherState::Polling => Action::Sleep(self.recheck_delay_seconds),
            WatcherState::Reloading => Action::Reload,
            WatcherState::Terminated(error) => Action::Stop(error),
        }
    }

    /// Tells the watcher the reading `current` of the modification time, in
    /// seconds since the epoch, or why there is none.
    pub fn observe(&mut self, current: Result<u64, ConfigError>) -> (action: Action)
        ensures
            final(self)@ == observed(old(self)@, current),
            action == pending(final(self)@),
    {
        match self.state {
            WatcherState::Polling => match current {
                Ok(seen) => {
                    if seen != self.last_seen {
                        self.last_seen = seen;
                        self.state = WatcherState::Reloading;
                    }
                },
                Err(error) => {
                    self.state = WatcherState::Terminated(error);
                },
            },
            _ => {},
        }
        self.answer()
    }

    /// Tells the watcher the outcome `loaded` of reading and decoding the
    /// file. A decoded value that was asked for replaces the one in `store`;
    /// in every other case `store` keeps what it holds.
    pub fn publish<T>(&mut self, store: &mut ConfigStore<T>, loaded: Result<T, ConfigError>) -> (action: Action)
        ensures
            final(self)@ == reloaded(old(self)@, loaded),
            final(store)@ == published(old(self)@, old(store)@, loaded),
            action == pending(final(self)@),
    {
        match self.state {
            WatcherState::Reloading => match loaded {
                Ok(value) => {
                    store.replace(value);
                    self.state = WatcherState::Polling;
                },
                Err(error) => {
                    self.state = WatcherState::Terminated(error);
                },
            },
            _ => {},
        }
        self.answer()
    }
}

} // verus!
