//! What holds of every run of a watcher and its store.

use vstd::prelude::*;
use crate::error::ConfigError;
use crate::trace::{run, step, Event, System};
use crate::watcher::{pending, Action, WatcherState, WatcherView};

verus! {

/// Whether no event of `events` reports a modification time other than
/// `seen`.
pub open spec fn timestamp_stays<T>(events: Seq<Event<T>>, seen: u64) -> bool {
    forall|i: int|
        0 <= i < events.len() ==> match #[trigger] events[i] {
            Event::Timestamp(Ok(current)) => current == seen,
            _ => true,
        }
}

/// Whether every event of `events` is a successful reading `seen` of the
/// modification time.
pub open spec fn only_polls<T>(events: Seq<Event<T>>, seen: u64) -> bool {
    forall|i: int| 0 <= i < events.len() ==> #[trigger] events[i] == Event::<T>::Timestamp(Ok(seen))
}

/// While the modification time stays what the watcher last acted upon, the
/// stored value stays what it is, however many events come: the watcher
/// never asks for a reload, and a decoded value that it did not ask for is
/// not published. The watcher must not be in the middle of a reload that an
/// earlier change set off.
pub proof fn lemma_same_timestamp_keeps_value<T>(s: System<T>, events: Seq<Event<T>>)
    requires
        !(s.watcher.state is Reloading),
        timestamp_stays(events, s.watcher.last_seen),
    ensures
        run(s, events).value == s.value,
        run(s, events).watcher.last_seen == s.watcher.last_seen,
        !(run(s, events).watcher.state is Reloading),
    decreases events.len(),
{
    if events.len() > 0 {
        let earlier = events.drop_last();
        assert forall|i: int| 0 <= i < earlier.len() implies match #[trigger] earlier[i] {
            Event::Timestamp(Ok(current)) => current == s.watcher.last_seen,
            _ => true,
        } by {
            assert(earlier[i] == events[i]);
        }
        lemma_same_timestamp_keeps_value(s, earlier);
        assert(events.last() == events[events.len() - 1]);
    }
}

/// A polling watcher that sees the same modification time at every poll
/// stays exactly as it is, with the stored value, and asks for a sleep of
/// its interval each time.
pub proof fn lemma_polls_without_change_do_nothing<T>(s: System<T>, events: Seq<Event<T>>)
    requires
        s.watcher.state is Polling,
        only_polls(events, s.watcher.last_seen),
    ensures
        run(s, events) == s,
        pending(run(s, events).watcher) == Action::Sleep(s.watcher.interval),
    decreases events.len(),
{
    if events.len() > 0 {
        let earlier = events.drop_last();
        assert forall|i: int| 0 <= i < earlier.len() implies #[trigger] earlier[i] == Event::<
            T,
        >::Timestamp(Ok(s.watcher.last_seen)) by {
            assert(earlier[i] == events[i]);
        }
        lemma_polls_without_change_do_nothing(s, earlier);
        assert(events.last() == events[events.len() - 1]);
    }
}

/// When a polling watcher sees a modification time other than the one it
/// last acted upon, it records that time and asks for a reload; when the
/// reload then hands it a decoded value, the store holds that value, and
/// the watcher is back to polling and asks for a sleep of its interval.
pub proof fn lemma_changed_timestamp_publishes<T>(s: System<T>, current: u64, value: T)
    requires
        s.watcher.state is Polling,
        current != s.watcher.last_seen,
    ensures
        pending(step(s, Event::Timestamp(Ok(current))).watcher) == Action::Reload,
        step(s, Event::Timestamp(Ok(current))).value == s.value,
        step(step(s, Event::Timestamp(Ok(current))), Event::Loaded(Ok(value))) == (System {
            watcher: WatcherView { last_seen: current, ..s.watcher },
            value,
        }),
        pending(step(step(s, Event::Timestamp(Ok(current))), Event::Loaded(Ok(value))).watcher)
            == Action::Sleep(s.watcher.interval),
{
}

/// One event leaves the stored value as it was, or replaces it by the
/// value decoded in that very event: nothing else is ever stored.
pub proof fn lemma_value_is_previous_or_decoded<T>(s: System<T>, event: Event<T>)
    ensures
        step(s, event).value == s.value || event == Event::Loaded(Ok(step(s, event).value)),
{
}

/// After any run, the stored value is the one from the start or one that
/// an event of the run decoded.
pub proof fn lemma_value_comes_from_a_load<T>(s: System<T>, events: Seq<Event<T>>)
    ensures
        run(s, events).value == s.value || exists|i: int|
            0 <= i < events.len() && #[trigger] events[i] == Event::Loaded(Ok(run(s, events).value)),
    decreases events.len(),
{
    if events.len() > 0 {
        let earlier = events.drop_last();
        let before = run(s, earlier);
        let after = run(s, events);
        lemma_value_comes_from_a_load(s, earlier);
        lemma_value_is_previous_or_decoded(before, events.last());
        if after.value == before.value {
            if before.value != s.value {
                let i = choose|i: int|
                    0 <= i < earlier.len() && #[trigger] earlier[i] == Event::Loaded(Ok(before.value));
                assert(events[i] == earlier[i]);
            }
        } else {
            assert(events[events.len() - 1] == Event::Loaded(Ok(after.value)));
        }
    }
}

/// A reload that fails stops the watcher with that failure, and the store
/// keeps the value it had.
pub proof fn lemma_failed_reload_stops<T>(s: System<T>, error: ConfigError)
    requires
        s.watcher.state is Reloading,
    ensures
        step(s, Event::Loaded(Err(error))) == (System {
            watcher: WatcherView { state: WatcherState::Terminated(error), ..s.watcher },
            value: s.value,
        }),
{
}

/// A reading of the modification time that fails stops a polling watcher
/// with that failure, and the store keeps the value it had.
pub proof fn lemma_failed_reading_stops<T>(s: System<T>, error: ConfigError)
    requires
        s.watcher.state is Polling,
    ensures
        step(s, Event::Timestamp(Err(error))) == (System {
            watcher: WatcherView { state: WatcherState::Terminated(error), ..s.watcher },
            value: s.value,
        }),
{
}

/// A watcher that has stopped stays stopped: whatever events follow, later
/// changes of the file and well-formed contents among them, neither the
/// watcher nor the stored value changes, and the watcher asks for nothing
/// but to stop.
pub proof fn lemma_terminated_is_final<T>(s: System<T>, events: Seq<Event<T>>)
    requires
        s.watcher.state is Terminated,
    ensures
        run(s, events) == s,
        pending(run(s, events).watcher) == Action::Stop(s.watcher.state->Terminated_0),
    decreases events.len(),
{
    if events.len() > 0 {
        lemma_terminated_is_final(s, events.drop_last());
    }
}

/// Once a change of the file has led to contents that do not decode, the
/// store keeps the value from before for good: no later event replaces it.
pub proof fn lemma_malformed_change_ends_reloading<T>(
    s: System<T>,
    current: u64,
    error: ConfigError,
    later: Seq<Event<T>>,
)
    requires
        s.watcher.state is Polling,
        current != s.watcher.last_seen,
    ensures
        run(step(step(s, Event::Timestamp(Ok(current))), Event::Loaded(Err(error))), later).value
            == s.value,
        run(
            step(step(s, Event::Timestamp(Ok(current))), Event::Loaded(Err(error))),
            later,
        ).watcher.state == WatcherState::Terminated(error),
{
    let stopped = step(step(s, Event::Timestamp(Ok(current))), Event::<T>::Loaded(Err(error)));
    lemma_terminated_is_final(stopped, later);
}

} // verus!
