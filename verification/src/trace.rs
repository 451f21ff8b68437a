//! A watcher and its store taken together, driven by a sequence of events.

use vstd::prelude::*;
use crate::error::ConfigError;
use crate::store::ConfigStore;
use crate::watcher::{observed, pending, published, reloaded, Action, Watcher, WatcherView};

verus! {

/// What the embedding program reports to the watcher.
#[derive(Debug)]
pub enum Event<T> {
    /// A reading of the file's modification time, in seconds since the
    /// epoch, or why there is none.
    Timestamp(Result<u64, ConfigError>),
    /// The value decoded from the file, or why there is none.
    Loaded(Result<T, ConfigError>),
}

/// A watcher together with the value in the store it publishes to.
pub struct System<T> {
    /// The watcher.
    pub watcher: WatcherView,
    /// The value that the store holds.
    pub value: T,
}

/// The system after one event.
pub open spec fn step<T>(s: System<T>, event: Event<T>) -> System<T> {
    match event {
        Event::Timestamp(current) => System { watcher: observed(s.watcher, current), value: s.value },
        Event::Loaded(loaded) => System {
            watcher: reloaded(s.watcher, loaded),
            value: published(s.watcher, s.value, loaded),
        },
    }
}

/// The system after the events of `events`, taken in order.
pub open spec fn run<T>(s: System<T>, events: Seq<Event<T>>) -> System<T>
    decreases events.len(),
{
    if events.len() == 0 {
        s
    } else {
        step(run(s, events.drop_last()), events.last())
    }
}

impl Watcher {
    /// Tells the watcher one event, whichever it is, and puts a value that
    /// it publishes into `store`.
    pub fn step<T>(&mut self, store: &mut ConfigStore<T>, event: Event<T>) -> (action: Action)
        ensures
            (System { watcher: final(self)@, value: final(store)@ }) == step(
                System { watcher: old(self)@, value: old(store)@ },
                event,
            ),
            action == pending(final(self)@),
    {
        match event {
            Event::Timestamp(current) => self.observe(current),
            Event::Loaded(loaded) => self.publish(store, loaded),
        }
    }
}

} // verus!
