use std::sync::{Arc, Mutex};
use trivial_log::{
    builder, Appender, get_idx_for_level, get_level_for_handlers, DefaultFormat, Engine, Error,
    HandlerCompound, IntoAppender, Level, LevelFilter, LogRecord,
};

#[derive(Clone)]
struct Counter {
    hits: Arc<Mutex<usize>>,
}

impl Counter {
    fn new() -> Self {
        Counter { hits: Arc::new(Mutex::new(0)) }
    }

    fn count(&self) -> usize {
        *self.hits.lock().unwrap()
    }
}

impl trivial_log::Appender<String> for Counter {
    fn append_log_message(&self, _message: &String) {
        *self.hits.lock().unwrap() += 1;
    }
}

fn rec(level: Level, message: &str) -> LogRecord {
    LogRecord { level, message: message.to_string(), thread: "t".to_string() }
}

#[test]
fn level_indices_are_dense_and_ordered() {
    assert_eq!(get_idx_for_level(Level::Trace), 0);
    assert_eq!(get_idx_for_level(Level::Debug), 1);
    assert_eq!(get_idx_for_level(Level::Info), 2);
    assert_eq!(get_idx_for_level(Level::Warn), 3);
    assert_eq!(get_idx_for_level(Level::Error), 4);
}

#[test]
fn threshold_takes_least_restrictive_level() {
    let c = Counter::new();
    let handlers = builder()
        .appender(Level::Debug, c.clone())
        .appender(Level::Info, c.clone())
        .format(DefaultFormat)
        .appender(Level::Info, c.clone())
        .finish_handler();
    assert_eq!(handlers.len(), 2);
    assert_eq!(get_level_for_handlers(&handlers), LevelFilter::Debug);
}

#[test]
fn threshold_trace_wins_over_empty_handler() {
    let c = Counter::new();
    let handlers = builder()
        .format(DefaultFormat)
        .appender(Level::Trace, c.clone())
        .finish_handler();
    assert_eq!(handlers.len(), 1);
    assert_eq!(get_level_for_handlers(&handlers), LevelFilter::Trace);
}

#[test]
fn threshold_off_installs_no_compound() {
    let engine = Engine::new();
    let handlers = builder::<Counter>().finish_handler();
    assert_eq!(handlers.len(), 0);
    assert_eq!(get_level_for_handlers(&handlers), LevelFilter::Off);
    builder::<Counter>().init(&engine, true).unwrap();
    for level in [Level::Trace, Level::Debug, Level::Info, Level::Warn, Level::Error] {
        assert!(!engine.enabled(level));
        engine.log(&rec(level, "nothing listens"));
    }
}

#[test]
fn empty_handler_is_dropped_at_finalization() {
    let c = Counter::new();
    let handlers = builder()
        .format(DefaultFormat)
        .format(DefaultFormat)
        .appender(Level::Warn, c.clone())
        .format(DefaultFormat)
        .finish_handler();
    assert_eq!(handlers.len(), 1);
    let compound = HandlerCompound::new(handlers);
    assert_eq!(compound.handler_count(), 1);
}

#[test]
fn appender_filter_off_is_a_no_op() {
    let c = Counter::new();
    let engine = Engine::new();
    builder().appender_filter(LevelFilter::Off, c.clone()).init(&engine, true).unwrap();
    for level in [Level::Trace, Level::Debug, Level::Info, Level::Warn, Level::Error] {
        engine.log(&rec(level, "x"));
    }
    assert_eq!(c.count(), 0);
}

#[test]
fn appender_filter_maps_to_inclusive_upper_range() {
    let c = Counter::new();
    let engine = Engine::new();
    builder().appender_filter(LevelFilter::Warn, c.clone()).init(&engine, true).unwrap();
    for level in [Level::Trace, Level::Debug, Level::Info, Level::Warn, Level::Error] {
        engine.log(&rec(level, "x"));
    }
    assert_eq!(c.count(), 2);
}

#[test]
fn error_carries_its_message() {
    let err = Error::AlreadyInitialized;
    assert_eq!(err, Error::AlreadyInitialized);
    assert_eq!(err.message(), "`log` has already been initialized by another crate");
}

#[test]
fn into_appender_wraps_a_sink_unchanged() {
    let c = Counter::new();
    let a = c.clone().into_appender();
    a.append_log_message(&"hello".to_string());
    assert_eq!(c.count(), 1);
}
