use config_updater::{
    ConfigError, ConfigMonitor, ConfigStore, WatcherState, DEFAULT_RECHECK_DELAY_SECONDS,
};

#[test]
fn new_holds_the_loaded_value() {
    let monitor = ConfigMonitor::new("./config.json", Some(30), Ok(17u64)).unwrap();
    assert_eq!(*monitor.data().read(), 17);
}

#[test]
fn new_keeps_the_filename() {
    let monitor = ConfigMonitor::new("./config.json", Some(30), Ok(17u64)).unwrap();
    assert_eq!(monitor.filename(), "./config.json");
}

#[test]
fn new_keeps_the_requested_interval() {
    let monitor = ConfigMonitor::new("a", Some(30), Ok(0u8)).unwrap();
    assert_eq!(monitor.recheck_delay_seconds(), 30);
}

#[test]
fn new_defaults_to_three_hundred_seconds() {
    let monitor = ConfigMonitor::new("a", None, Ok(0u8)).unwrap();
    assert_eq!(monitor.recheck_delay_seconds(), 300);
    assert_eq!(DEFAULT_RECHECK_DELAY_SECONDS, 300);
}

#[test]
fn new_accepts_a_zero_interval() {
    let monitor = ConfigMonitor::new("a", Some(0), Ok(0u8)).unwrap();
    assert_eq!(monitor.recheck_delay_seconds(), 0);
}

#[test]
fn new_accepts_the_largest_interval() {
    let monitor = ConfigMonitor::new("a", Some(u64::MAX), Ok(0u8)).unwrap();
    assert_eq!(monitor.recheck_delay_seconds(), u64::MAX);
}

#[test]
fn new_fails_on_an_unreadable_file() {
    let built = ConfigMonitor::<u64>::new("missing.json", Some(30), Err(ConfigError::Io));
    assert!(matches!(built, Err(ConfigError::Io)));
}

#[test]
fn new_fails_on_malformed_contents() {
    let built = ConfigMonitor::<u64>::new("broken.json", None, Err(ConfigError::Decode));
    assert!(matches!(built, Err(ConfigError::Decode)));
}

#[test]
fn new_fails_on_a_clock_error() {
    let built = ConfigMonitor::<u64>::new("old.json", None, Err(ConfigError::Clock));
    assert!(matches!(built, Err(ConfigError::Clock)));
}

#[test]
fn new_keeps_an_empty_filename() {
    let monitor = ConfigMonitor::new("", None, Ok(1u32)).unwrap();
    assert_eq!(monitor.filename(), "");
}

#[test]
fn into_parts_hands_out_what_new_was_given() {
    let monitor = ConfigMonitor::new("conf/app.json", Some(5), Ok(String::from("x"))).unwrap();
    let (filename, seconds, store) = monitor.into_parts();
    assert_eq!(filename, "conf/app.json");
    assert_eq!(seconds, 5);
    assert_eq!(store.read(), "x");
}

#[test]
fn monitor_starts_a_polling_watcher() {
    let monitor = ConfigMonitor::new("conf/app.json", Some(5), Ok(9u64)).unwrap();
    let (watcher, store) = monitor.monitor(Ok(1_700_000_000));
    assert_eq!(watcher.state(), WatcherState::Polling);
    assert!(watcher.is_running());
    assert_eq!(watcher.last_seen(), 1_700_000_000);
    assert_eq!(watcher.filename(), "conf/app.json");
    assert_eq!(watcher.recheck_delay_seconds(), 5);
    assert_eq!(*store.read(), 9);
}

#[test]
fn monitor_with_a_failed_first_reading_is_stopped() {
    let monitor = ConfigMonitor::new("gone.json", None, Ok(9u64)).unwrap();
    let (watcher, store) = monitor.monitor(Err(ConfigError::Io));
    assert_eq!(watcher.state(), WatcherState::Terminated(ConfigError::Io));
    assert!(!watcher.is_running());
    assert_eq!(*store.read(), 9);
}

#[test]
fn monitor_with_a_time_before_the_epoch_is_stopped() {
    let monitor = ConfigMonitor::new("old.json", None, Ok(9u64)).unwrap();
    let (watcher, store) = monitor.monitor(Err(ConfigError::Clock));
    assert_eq!(watcher.state(), WatcherState::Terminated(ConfigError::Clock));
    assert_eq!(*store.read(), 9);
}

#[test]
fn store_reads_what_it_was_made_with() {
    let store = ConfigStore::new(vec![1u8, 2, 3]);
    assert_eq!(store.read(), &vec![1u8, 2, 3]);
}

#[test]
fn store_replace_changes_the_value() {
    let mut store = ConfigStore::new(1u64);
    store.replace(2);
    assert_eq!(*store.read(), 2);
    store.replace(2);
    assert_eq!(*store.read(), 2);
    store.replace(0);
    assert_eq!(*store.read(), 0);
}

#[test]
fn store_into_inner_gives_the_last_value() {
    let mut store = ConfigStore::new(String::from("first"));
    store.replace(String::from("second"));
    assert_eq!(store.into_inner(), "second");
}
