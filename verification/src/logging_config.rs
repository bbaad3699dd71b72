//! Logging configuration.
//!
//! A [`LoggingConfig`] pairs a verbosity level with an output destination.
//! It may be changed freely before activation; [`init_logger`] then binds it
//! to the process-wide logging facility, which can happen at most once per
//! process.

use vstd::prelude::*;

verus! {

/// Log levels supported by the logger, from most to least severe:
/// `Error`, `Warn`, `Info`, `Debug`, `Trace`.
#[derive(Debug, PartialEq)]
pub enum LogLevel {
    Debug,
    Error,
    Info,
    Trace,
    Warn,
}

impl LogLevel {
    /// The display token of this level.
    pub open spec fn spec_token(self) -> Seq<char> {
        match self {
            LogLevel::Error => "ERROR"@,
            LogLevel::Warn => "WARN"@,
            LogLevel::Info => "INFO"@,
            LogLevel::Debug => "DEBUG"@,
            LogLevel::Trace => "TRACE"@,
        }
    }

    /// Returns the display token of this level.
    pub fn as_str(&self) -> (r: &str)
        ensures
            r@ == self.spec_token(),
    {
        match self {
            LogLevel::Error => "ERROR",
            LogLevel::Warn => "WARN",
            LogLevel::Info => "INFO",
            LogLevel::Debug => "DEBUG",
            LogLevel::Trace => "TRACE",
        }
    }
}

/// Every level's display token is one of the five fixed tokens, and each
/// token belongs to exactly the level it names.
pub proof fn lemma_token_matches_level(level: LogLevel)
    ensures
        level.spec_token() == "ERROR"@ || level.spec_token() == "WARN"@
            || level.spec_token() == "INFO"@ || level.spec_token() == "DEBUG"@
            || level.spec_token() == "TRACE"@,
        level is Error <==> level.spec_token() == "ERROR"@,
        level is Warn <==> level.spec_token() == "WARN"@,
        level is Info <==> level.spec_token() == "INFO"@,
        level is Debug <==> level.spec_token() == "DEBUG"@,
        level is Trace <==> level.spec_token() == "TRACE"@,
{
    reveal_strlit("ERROR");
    reveal_strlit("WARN");
    reveal_strlit("INFO");
    reveal_strlit("DEBUG");
    reveal_strlit("TRACE");
    assert("ERROR"@[0] == 'E' && "WARN"@[0] == 'W' && "INFO"@[0] == 'I' && "DEBUG"@[0] == 'D'
        && "TRACE"@[0] == 'T');
}

/// Log output targets supported by the logger.
#[derive(Debug, PartialEq, Eq)]
pub enum LogOutput {
    Stdout,
    Stderr,
    File(String),
}

/// Configuration for the logger: a log level and an output target.
pub struct LoggingConfig {
    level: LogLevel,
    output: LogOutput,
}

impl LoggingConfig {
    /// The configured level.
    pub closed spec fn spec_level(self) -> LogLevel {
        self.level
    }

    /// The configured output target.
    pub closed spec fn spec_output(self) -> LogOutput {
        self.output
    }

    /// The configuration with its level replaced.
    pub closed spec fn with_level(self, level: LogLevel) -> LoggingConfig {
        LoggingConfig { level, output: self.output }
    }

    /// The configuration with its output target replaced.
    pub closed spec fn with_output(self, output: LogOutput) -> LoggingConfig {
        LoggingConfig { level: self.level, output }
    }

    /// Builds a configuration from a level and an output target.
    pub fn new(level: LogLevel, output: LogOutput) -> (r: Self)
        ensures
            r.spec_level() == level,
            r.spec_output() == output,
    {
        LoggingConfig { level, output }
    }

    /// Replaces the level; the output target is kept.
    pub fn set_level(&mut self, level: LogLevel)
        ensures
            *final(self) == old(self).with_level(level),
    {
        self.level = level;
    }

    /// Replaces the output target; the level is kept.
    pub fn set_output(&mut self, output: LogOutput)
        ensures
            *final(self) == old(self).with_output(output),
    {
        self.output = output;
    }

    /// Reads the configured level.
    pub fn get_level(&self) -> (r: &LogLevel)
        ensures
            *r == self.spec_level(),
    {
        &self.level
    }

    /// Reads the configured output target.
    pub fn get_output(&self) -> (r: &LogOutput)
        ensures
            *r == self.spec_output(),
    {
        &self.output
    }
}

/// The error of a failed activation: the process-wide logging facility was
/// already activated, or the output target could not be prepared (for a
/// file target, the file could not be set up at the given path).
#[derive(Debug, PartialEq, Eq)]
pub struct ActivationError;

/// A string that holds the display token of one of the five levels.
pub open spec fn is_level_token(s: Seq<char>) -> bool {
    s == "ERROR"@ || s == "WARN"@ || s == "INFO"@ || s == "DEBUG"@ || s == "TRACE"@
}

#[verifier::external_type_specification]
#[verifier::external_body]
pub struct ExLogger(flexi_logger::Logger);

#[verifier::external_type_specification]
#[verifier::external_body]
pub struct ExFileSpec(flexi_logger::FileSpec);

#[verifier::external_type_specification]
#[verifier::external_body]
pub struct ExLoggerHandle(flexi_logger::LoggerHandle)
where
    flexi_logger::LoggerHandle: Send + Sync;

#[verifier::external_type_specification]
#[verifier::external_body]
pub struct ExFlexiLoggerError(flexi_logger::FlexiLoggerError);

/// Relies on flexi_logger::Logger::try_with_str: it builds a logger from a
/// level-specification string, and its parser accepts each of the five
/// display tokens (case-insensitively) as a plain global level, so on those
/// it returns Ok.
#[verifier::external_body]
fn logger_try_with_str(s: &str) -> (r: Result<flexi_logger::Logger, flexi_logger::FlexiLoggerError>)
    ensures
        is_level_token(s@) ==> r is Ok,
{
    flexi_logger::Logger::try_with_str(s)
}

/// Relies on flexi_logger::Logger::log_to_stdout: it redirects the logger
/// under construction to standard output and cannot fail.
#[verifier::external_body]
fn logger_to_stdout(l: flexi_logger::Logger) -> flexi_logger::Logger {
    l.log_to_stdout()
}

/// Relies on flexi_logger::Logger::log_to_stderr: it redirects the logger
/// under construction to standard error and cannot fail.
#[verifier::external_body]
fn logger_to_stderr(l: flexi_logger::Logger) -> flexi_logger::Logger {
    l.log_to_stderr()
}

/// Relies on flexi_logger::Logger::log_to_file: it redirects the logger
/// under construction to the file the given specification describes and
/// cannot fail (the file itself is touched only at activation or later).
#[verifier::external_body]
fn logger_to_file(l: flexi_logger::Logger, spec_of_file: flexi_logger::FileSpec)
    -> flexi_logger::Logger {
    l.log_to_file(spec_of_file)
}

/// Relies on flexi_logger::FileSpec::try_from: it derives a file
/// specification that names exactly the given path (no timestamp is
/// inserted), and returns Err when the path cannot describe a log file
/// (empty, an existing directory, or otherwise malformed).
#[verifier::external_body]
fn file_spec_from_path(path: &str)
    -> Result<flexi_logger::FileSpec, flexi_logger::FlexiLoggerError> {
    flexi_logger::FileSpec::try_from(path)
}

/// Relies on flexi_logger::Logger::start: it binds the built logger to the
/// process-wide logging facility and hands back the handle that keeps it
/// alive; it returns Err when the facility is already bound or the output
/// target cannot be set up.
#[verifier::external_body]
fn logger_start(l: flexi_logger::Logger)
    -> Result<flexi_logger::LoggerHandle, flexi_logger::FlexiLoggerError> {
    l.start()
}

/// Initializes the process-wide logger with the configured level and output
/// target, and returns the handle that keeps the logger alive; the handle
/// should live until the end of the program.
///
/// Activation can happen at most once per process: a second call fails with
/// [`ActivationError`], as does a file target whose file cannot be set up.
pub fn init_logger(config: LoggingConfig) -> (r: Result<
    flexi_logger::LoggerHandle,
    ActivationError,
>)
    ensures
        r matches Err(e) ==> e == (ActivationError),
{
    let logger = match logger_try_with_str(config.get_level().as_str()) {
        Ok(l) => l,
        Err(_) => {
            return Err(ActivationError);
        },
    };
    let logger = match config.get_output() {
        LogOutput::Stdout => logger_to_stdout(logger),
        LogOutput::Stderr => logger_to_stderr(logger),
        LogOutput::File(path) => {
            let spec_of_file = match file_spec_from_path(path.as_str()) {
                Ok(f) => f,
                Err(_) => {
                    return Err(ActivationError);
                },
            };
            logger_to_file(logger, spec_of_file)
        },
    };
    match logger_start(logger) {
        Ok(handle) => Ok(handle),
        Err(_) => Err(ActivationError),
    }
}

/// Setting the level or the output target and then reading it back returns
/// the just-set value, and leaves the other half of the configuration as it
/// was.
pub proof fn lemma_set_get_round_trip(c: LoggingConfig, level: LogLevel, output: LogOutput)
    ensures
        c.with_level(level).spec_level() == level,
        c.with_level(level).spec_output() == c.spec_output(),
        c.with_output(output).spec_output() == output,
        c.with_output(output).spec_level() == c.spec_level(),
{
}

} // verus!
