use rust_fundamentals1::logging_config::LogLevel;
use rust_fundamentals1::logging_config::LogOutput;
use rust_fundamentals1::logging_config::LoggingConfig;

#[test]
fn level_tokens() {
    assert_eq!(LogLevel::Error.as_str(), "ERROR");
    assert_eq!(LogLevel::Warn.as_str(), "WARN");
    assert_eq!(LogLevel::Info.as_str(), "INFO");
    assert_eq!(LogLevel::Debug.as_str(), "DEBUG");
    assert_eq!(LogLevel::Trace.as_str(), "TRACE");
}

#[test]
fn new_then_get() {
    let config = LoggingConfig::new(LogLevel::Info, LogOutput::Stdout);
    assert_eq!(config.get_level(), &LogLevel::Info);
    assert_eq!(config.get_output(), &LogOutput::Stdout);
}

#[test]
fn set_level_then_get_round_trip() {
    let mut config = LoggingConfig::new(LogLevel::Info, LogOutput::Stdout);
    config.set_level(LogLevel::Debug);
    assert_eq!(config.get_level(), &LogLevel::Debug);
    assert_eq!(config.get_output(), &LogOutput::Stdout);
}

#[test]
fn set_output_then_get_round_trip() {
    let mut config = LoggingConfig::new(LogLevel::Info, LogOutput::Stdout);
    config.set_output(LogOutput::File("log.txt".to_string()));
    assert_eq!(config.get_level(), &LogLevel::Info);
    assert_eq!(config.get_output(), &LogOutput::File("log.txt".to_string()));
    config.set_output(LogOutput::Stderr);
    assert_eq!(config.get_output(), &LogOutput::Stderr);
}
