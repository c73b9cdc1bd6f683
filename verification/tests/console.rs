use lagon_deploy::console::{console_binding, Level, CONSOLE_SOURCE};

fn running() -> Option<(String, String)> {
    Some(("deployment-1".to_string(), "function-1".to_string()))
}

#[test]
fn console_source_is_console() {
    assert_eq!(CONSOLE_SOURCE, "console");
}

#[test]
fn debug_is_logged_as_debug() {
    let record = console_binding("debug", "hello".to_string(), running()).unwrap();
    assert_eq!(record.level, Level::Debug);
    assert_eq!(record.source, "console");
    assert_eq!(record.deployment, "deployment-1");
    assert_eq!(record.function, "function-1");
    assert_eq!(record.message, "hello");
}

#[test]
fn warn_is_logged_as_warn() {
    let record = console_binding("warn", "careful".to_string(), running()).unwrap();
    assert_eq!(record.level, Level::Warn);
}

#[test]
fn error_is_logged_as_error() {
    let record = console_binding("error", "broken".to_string(), running()).unwrap();
    assert_eq!(record.level, Level::Error);
}

#[test]
fn log_and_info_are_logged_as_info() {
    let record = console_binding("log", "plain".to_string(), running()).unwrap();
    assert_eq!(record.level, Level::Info);
    let record = console_binding("info", "plain".to_string(), running()).unwrap();
    assert_eq!(record.level, Level::Info);
}

#[test]
fn unknown_and_differently_cased_levels_are_info() {
    let record = console_binding("", "plain".to_string(), running()).unwrap();
    assert_eq!(record.level, Level::Info);
    let record = console_binding("DEBUG", "plain".to_string(), running()).unwrap();
    assert_eq!(record.level, Level::Info);
    let record = console_binding("debug ", "plain".to_string(), running()).unwrap();
    assert_eq!(record.level, Level::Info);
}

#[test]
fn nothing_is_logged_without_a_running_function() {
    assert!(console_binding("error", "lost".to_string(), None).is_none());
}
