use rust_fundamentals1::logging_config::init_logger;
use rust_fundamentals1::logging_config::ActivationError;
use rust_fundamentals1::logging_config::LogLevel;
use rust_fundamentals1::logging_config::LogOutput;
use rust_fundamentals1::logging_config::LoggingConfig;

#[test]
fn activate_stdout_once_then_fail_on_second_attempt() {
    let config = LoggingConfig::new(LogLevel::Info, LogOutput::Stdout);
    let handle = init_logger(config);
    assert!(handle.is_ok());
    let handle = handle.unwrap();

    // A record at a level at least as severe as the configured one goes
    // through the activated facility to standard output.
    let record = log::Record::builder().level(log::Level::Warn).build();
    log::logger().log(&record);
    handle.flush();

    // The facility is process-wide and bound at most once: a second
    // activation fails, whatever configuration it carries.
    let again = LoggingConfig::new(LogLevel::Debug, LogOutput::Stderr);
    let second = init_logger(again);
    assert!(matches!(second, Err(ActivationError)));
}
