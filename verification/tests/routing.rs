use std::sync::{Arc, Mutex};
use trivial_log::{
    builder, free, DefaultFormat, Engine, Error, Handler, HandlerCompound, Level, LogRecord,
};

#[derive(Clone)]
struct Collector {
    sink: Arc<Mutex<Vec<String>>>,
}

impl Collector {
    fn new() -> Self {
        Collector { sink: Arc::new(Mutex::new(Vec::new())) }
    }

    fn lines(&self) -> Vec<String> {
        self.sink.lock().unwrap().clone()
    }
}

impl trivial_log::Appender<String> for Collector {
    fn append_log_message(&self, message: &String) {
        self.sink.lock().unwrap().push(message.clone());
    }
}

fn rec(level: Level, message: &str) -> LogRecord {
    LogRecord { level, message: message.to_string(), thread: "t".to_string() }
}

const ALL_LEVELS: [Level; 5] =
    [Level::Trace, Level::Debug, Level::Info, Level::Warn, Level::Error];

#[test]
fn enabled_matches_naive_scan() {
    let c = Collector::new();
    let handlers = builder()
        .appender(Level::Debug, c.clone())
        .appender(Level::Warn, c.clone())
        .format(DefaultFormat)
        .appender(Level::Info, c.clone())
        .finish_handler();
    let mut naive = Vec::new();
    for level in ALL_LEVELS {
        naive.push(handlers.iter().any(|h| h.is_enabled(level)));
    }
    let compound = HandlerCompound::new(handlers);
    for (i, level) in ALL_LEVELS.into_iter().enumerate() {
        assert_eq!(compound.is_enabled(level), naive[i]);
    }
    assert_eq!(naive, vec![false, true, true, true, false]);
}

#[test]
fn appender_range_covers_exactly_the_range() {
    let c = Collector::new();
    let engine = Engine::new();
    builder()
        .appender_range(Level::Debug, Level::Warn, c.clone())
        .init(&engine, true)
        .unwrap();
    for level in ALL_LEVELS {
        engine.log(&rec(level, "x"));
    }
    let lines = c.lines();
    assert_eq!(lines.len(), 3);
    assert!(lines[0].starts_with("[D]"));
    assert!(lines[1].starts_with("[I]"));
    assert!(lines[2].starts_with("[W]"));
}

#[test]
fn appender_range_reversed_registers_nowhere() {
    let c = Collector::new();
    let engine = Engine::new();
    builder()
        .appender_range(Level::Warn, Level::Debug, c.clone())
        .init(&engine, true)
        .unwrap();
    for level in ALL_LEVELS {
        engine.log(&rec(level, "x"));
        assert!(!engine.enabled(level));
    }
    assert_eq!(c.lines().len(), 0);
}

#[test]
fn reinit_replaces_routing() {
    let a = Collector::new();
    let b = Collector::new();
    let engine = Engine::new();
    builder().appender(Level::Info, a.clone()).init(&engine, true).unwrap();
    engine.log(&rec(Level::Info, "one"));
    assert_eq!(a.lines().len(), 1);
    builder().appender(Level::Info, b.clone()).init(&engine, true).unwrap();
    engine.log(&rec(Level::Info, "two"));
    assert_eq!(a.lines().len(), 1);
    assert_eq!(b.lines().len(), 1);
    assert!(b.lines()[0].ends_with("two\n"));
}

#[test]
fn foreign_backend_init_fails_without_touching_state() {
    let a = Collector::new();
    let b = Collector::new();
    let engine = Engine::new();
    builder().appender(Level::Info, a.clone()).init(&engine, true).unwrap();
    let denied = builder().appender(Level::Info, b.clone()).init(&engine, false);
    assert_eq!(denied, Err(Error::AlreadyInitialized));
    engine.log(&rec(Level::Info, "still routed"));
    assert_eq!(a.lines().len(), 1);
    assert_eq!(b.lines().len(), 0);
}

#[test]
fn free_silences_and_reinit_restores() {
    let c = Collector::new();
    let engine = Engine::new();
    builder().appender_filter(trivial_log::LevelFilter::Trace, c.clone())
        .init(&engine, true)
        .unwrap();
    engine.log(&rec(Level::Error, "before"));
    assert_eq!(c.lines().len(), 1);
    free(&engine);
    for level in ALL_LEVELS {
        engine.log(&rec(level, "dropped"));
        assert!(!engine.enabled(level));
    }
    assert_eq!(c.lines().len(), 1);
    builder().appender(Level::Error, c.clone()).init(&engine, true).unwrap();
    engine.log(&rec(Level::Error, "after"));
    assert_eq!(c.lines().len(), 2);
}

#[test]
fn end_to_end_fan_out_counts_and_tags() {
    let a = Collector::new();
    let b = Collector::new();
    let engine = Engine::new();
    builder()
        .appender_range(Level::Info, Level::Error, a.clone())
        .appender(Level::Error, b.clone())
        .init(&engine, true)
        .unwrap();
    engine.log(&rec(Level::Info, "info msg"));
    engine.log(&rec(Level::Error, "error msg"));
    let a_lines = a.lines();
    let b_lines = b.lines();
    assert_eq!(a_lines.len(), 2);
    assert_eq!(b_lines.len(), 1);
    assert!(a_lines[0].starts_with("[I]"));
    assert!(a_lines[0].ends_with("info msg\n"));
    assert!(a_lines[1].starts_with("[E]"));
    assert!(b_lines[0].starts_with("[E]"));
    assert!(b_lines[0].ends_with("error msg\n"));
}

#[derive(Clone)]
struct Tagged {
    tag: &'static str,
    sink: Arc<Mutex<Vec<String>>>,
}

impl trivial_log::Appender<String> for Tagged {
    fn append_log_message(&self, message: &String) {
        self.sink.lock().unwrap().push(format!("{}:{}", self.tag, message));
    }
}

#[test]
fn fan_out_follows_registration_order() {
    let shared = Arc::new(Mutex::new(Vec::new()));
    let first = Tagged { tag: "first", sink: Arc::clone(&shared) };
    let second = Tagged { tag: "second", sink: Arc::clone(&shared) };
    let third = Tagged { tag: "third", sink: Arc::clone(&shared) };
    let engine = Engine::new();
    builder()
        .appender(Level::Warn, first)
        .appender(Level::Warn, second)
        .format(DefaultFormat)
        .appender(Level::Warn, third)
        .init(&engine, true)
        .unwrap();
    engine.log(&rec(Level::Warn, "ordered"));
    let order: Vec<String> = shared
        .lock()
        .unwrap()
        .iter()
        .map(|line| line.split(':').next().unwrap().to_string())
        .collect();
    assert_eq!(order, vec!["first", "second", "third"]);
}
