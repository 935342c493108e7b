use file_logger::{init, init_with_level, Action, AlreadyInitialized, Facade, Level, Logger};

/// Routes one event as the facade does: to the installed logger, if its
/// threshold lets the event pass.
fn emit(facade: &Facade, level: Level, message: &str, file: &mut String) {
    if let Some(logger) = facade.logger() {
        if logger.enabled(level) {
            if let Action::Append(text) = logger.log(true, message) {
                file.push_str(&text);
            }
        }
    }
}

#[test]
fn fresh_facade_holds_no_logger() {
    let facade = Facade::new();
    assert!(facade.logger().is_none());
    assert_eq!(facade.max_level(), None);
}

#[test]
fn init_with_level_installs_the_logger_and_its_threshold() {
    let mut facade = Facade::new();
    assert_eq!(init_with_level(&mut facade, "out.log", Level::Info), Ok(()));
    assert_eq!(facade.logger(), Some(&Logger::new("out.log", Level::Info)));
    assert_eq!(facade.max_level(), Some(Level::Info));
}

#[test]
fn init_records_everything() {
    let mut facade = Facade::new();
    assert_eq!(init(&mut facade, "all.log"), Ok(()));
    assert_eq!(facade.logger(), Some(&Logger::new("all.log", Level::Trace)));
    assert_eq!(facade.max_level(), Some(Level::Trace));
}

#[test]
fn second_init_fails_and_keeps_the_first_logger() {
    let mut facade = Facade::new();
    assert_eq!(init(&mut facade, "first.log"), Ok(()));
    assert_eq!(init(&mut facade, "second.log"), Err(AlreadyInitialized));
    assert_eq!(facade.logger(), Some(&Logger::new("first.log", Level::Trace)));
    assert_eq!(facade.max_level(), Some(Level::Trace));
}

#[test]
fn second_init_with_level_fails_and_keeps_the_first_threshold() {
    let mut facade = Facade::new();
    assert_eq!(init_with_level(&mut facade, "first.log", Level::Error), Ok(()));
    assert_eq!(init_with_level(&mut facade, "second.log", Level::Debug), Err(AlreadyInitialized));
    assert_eq!(init(&mut facade, "third.log"), Err(AlreadyInitialized));
    assert_eq!(facade.logger(), Some(&Logger::new("first.log", Level::Error)));
    assert_eq!(facade.max_level(), Some(Level::Error));
}

#[test]
fn info_threshold_end_to_end() {
    let mut facade = Facade::new();
    assert_eq!(init_with_level(&mut facade, "out.log", Level::Info), Ok(()));

    let mut file = String::new();
    emit(&facade, Level::Debug, "cache warmed", &mut file);
    emit(&facade, Level::Error, "disk full", &mut file);
    let logger = facade.logger().expect("a logger is installed");
    match logger.flush(true) {
        Action::Append(text) => file.push_str(&text),
        Action::Diagnose(text) => panic!("unexpected diagnostic {:?}", text),
    }

    let lines: Vec<&str> = file.lines().collect();
    assert_eq!(lines.len(), 2);
    assert!(lines[0].contains("disk full"));
    assert!(lines[1].ends_with("END LOG"));
    assert!(!file.contains("cache warmed"));
    assert!(file.ends_with('\n'));
}
