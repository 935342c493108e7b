use file_logger::{Level, Logger};

const ALL_LEVELS: [Level; 5] = [Level::Error, Level::Warn, Level::Info, Level::Debug, Level::Trace];

#[test]
fn ordinal_rises_with_verbosity() {
    assert_eq!(Level::Error.ordinal(), 1);
    assert_eq!(Level::Warn.ordinal(), 2);
    assert_eq!(Level::Info.ordinal(), 3);
    assert_eq!(Level::Debug.ordinal(), 4);
    assert_eq!(Level::Trace.ordinal(), 5);
}

#[test]
fn warn_threshold_admits_error_and_drops_debug() {
    let logger = Logger::new("out.log", Level::Warn);
    assert!(logger.enabled(Level::Error));
    assert!(logger.enabled(Level::Warn));
    assert!(!logger.enabled(Level::Info));
    assert!(!logger.enabled(Level::Debug));
    assert!(!logger.enabled(Level::Trace));
}

#[test]
fn enabled_follows_the_order_of_ordinals() {
    for threshold in ALL_LEVELS {
        let logger = Logger::new("out.log", threshold);
        for level in ALL_LEVELS {
            assert_eq!(logger.enabled(level), level.ordinal() <= threshold.ordinal());
        }
    }
}

#[test]
fn enabled_is_monotone_in_severity() {
    for threshold in ALL_LEVELS {
        let logger = Logger::new("out.log", threshold);
        for b in ALL_LEVELS {
            for a in ALL_LEVELS {
                if a.ordinal() <= b.ordinal() && logger.enabled(b) {
                    assert!(logger.enabled(a));
                }
            }
        }
    }
}

#[test]
fn trace_threshold_records_every_level() {
    let logger = Logger::new("out.log", Level::Trace);
    for level in ALL_LEVELS {
        assert!(logger.enabled(level));
    }
}

#[test]
fn error_threshold_records_errors_only() {
    let logger = Logger::new("out.log", Level::Error);
    assert!(logger.enabled(Level::Error));
    for level in [Level::Warn, Level::Info, Level::Debug, Level::Trace] {
        assert!(!logger.enabled(level));
    }
}

#[test]
fn levels_compare_by_severity() {
    assert!(Level::Error < Level::Warn);
    assert!(Level::Warn < Level::Info);
    assert!(Level::Info < Level::Debug);
    assert!(Level::Debug < Level::Trace);
    assert!(Level::Info <= Level::Info);
    assert!(!(Level::Trace <= Level::Debug));
    for a in ALL_LEVELS {
        for b in ALL_LEVELS {
            assert_eq!(a.partial_cmp(&b), a.ordinal().partial_cmp(&b.ordinal()));
            assert_eq!(a == b, a.ordinal() == b.ordinal());
        }
    }
}
