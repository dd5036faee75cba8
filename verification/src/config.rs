//! Startup configuration: the command-line values, their validation and the
//! log level they select.

use vstd::prelude::*;
use vstd::string::StringExecFns;

verus! {

/// Number of requests each of the three queues holds at most.
pub const QUEUE_CAPACITY: usize = 500;

/// Tick interval, in milliseconds, when none is given.
pub const DEFAULT_TICK_RATE: u64 = 250;

/// Poll interval, in milliseconds, when none is given.
pub const DEFAULT_POLL_RATE: u64 = 5000;

/// Smallest tick interval, in milliseconds, that is refused.
pub const TICK_RATE_LIMIT: u64 = 1000;

/// The values given on the command line.
#[derive(Clone, Debug, PartialEq, Eq)]
pub struct Cli {
    /// Tick interval in milliseconds: the lower the number, the more frames.
    pub tick_rate: u64,
    /// Interval in milliseconds between two rounds of network polling.
    pub poll_rate: u64,
    /// Whether unicode symbols are used to improve the look.
    pub enhanced_graphics: bool,
    /// Log level name when debug mode is on.
    pub debug: Option<String>,
}

/// Why a pair of intervals is refused at startup.
#[derive(Clone, Copy, Debug, PartialEq, Eq, Structural)]
pub enum ConfigError {
    /// The tick interval is 1000 ms or more.
    TickRateTooHigh,
    /// The tick interval is zero, so no poll interval is a multiple of it.
    TickRateZero,
    /// The poll interval is not an exact multiple of the tick interval.
    PollRateNotMultiple,
    /// The poll interval is zero, which would leave no tick between polls.
    PollRateZero,
}

/// Severity threshold of the debug log.
#[derive(Clone, Copy, Debug, PartialEq, Eq, Structural)]
pub enum LogLevel {
    Info,
    Debug,
    Trace,
    Warn,
    Error,
}

/// The lower-case form that `str::to_lowercase` gives to a text.
pub uninterp spec fn lowercase_of(s: Seq<char>) -> Seq<char>;

/// The level that a lower-case level name selects: the four names that are
/// not `info` select their own level, anything else selects `Info`.
pub open spec fn level_for_name(name: Seq<char>) -> LogLevel {
    if name == "debug"@ {
        LogLevel::Debug
    } else if name == "trace"@ {
        LogLevel::Trace
    } else if name == "warn"@ {
        LogLevel::Warn
    } else if name == "error"@ {
        LogLevel::Error
    } else {
        LogLevel::Info
    }
}

/// Calls `str::to_lowercase`. Trusted: the result is the lower-case form of
/// the argument, which depends on the argument's characters alone.
#[verifier::external_body]
fn lowercase(s: &str) -> (r: String)
    ensures
        r@ == lowercase_of(s@),
{
    s.to_lowercase()
}

/// Level selected by a name that is already in lower case.
pub fn log_level_for(name: &str) -> (level: LogLevel)
    ensures
        level == level_for_name(name@),
{
    let owned = String::from_str(name);
    if owned == String::from_str("debug") {
        LogLevel::Debug
    } else if owned == String::from_str("trace") {
        LogLevel::Trace
    } else if owned == String::from_str("warn") {
        LogLevel::Warn
    } else if owned == String::from_str("error") {
        LogLevel::Error
    } else {
        LogLevel::Info
    }
}

/// The sentence that tells the user why startup was refused.
pub open spec fn error_text(error: ConfigError) -> Seq<char> {
    match error {
        ConfigError::TickRateTooHigh => "Tick rate must be below 1000"@,
        ConfigError::TickRateZero => "Tick rate must be above 0"@,
        ConfigError::PollRateNotMultiple => "Poll rate must be multiple of tick-rate"@,
        ConfigError::PollRateZero => "Poll rate must be above 0"@,
    }
}

impl ConfigError {
    /// The sentence that tells the user why startup was refused.
    pub fn message(&self) -> (text: String)
        ensures
            text@ == error_text(*self),
    {
        match self {
            ConfigError::TickRateTooHigh => String::from_str("Tick rate must be below 1000"),
            ConfigError::TickRateZero => String::from_str("Tick rate must be above 0"),
            ConfigError::PollRateNotMultiple => String::from_str(
                "Poll rate must be multiple of tick-rate",
            ),
            ConfigError::PollRateZero => String::from_str("Poll rate must be above 0"),
        }
    }
}

/// The name of the debug log that is started at the time `timestamp` names.
pub open spec fn log_file_name_spec(timestamp: Seq<char>) -> Seq<char> {
    "./kdash-debug-"@ + timestamp + ".log"@
}

/// The name of the debug log: in the current directory, marked with the
/// time at which logging started.
pub fn log_file_name(timestamp: &str) -> (name: String)
    ensures
        name@ == log_file_name_spec(timestamp@),
{
    let mut name = String::from_str("./kdash-debug-");
    name.append(timestamp);
    name.append(".log");
    name
}

impl Cli {
    /// The values used when the command line gives none.
    pub fn new() -> (cli: Cli)
        ensures
            cli.tick_rate == DEFAULT_TICK_RATE,
            cli.poll_rate == DEFAULT_POLL_RATE,
            cli.enhanced_graphics,
            cli.debug is None,
    {
        Cli {
            tick_rate: DEFAULT_TICK_RATE,
            poll_rate: DEFAULT_POLL_RATE,
            enhanced_graphics: true,
            debug: None,
        }
    }

    /// Validates the two intervals and returns how many ticks pass between
    /// two polls.
    pub fn poll_to_tick_ratio(&self) -> (r: Result<u64, ConfigError>)
        ensures
            r is Ok <==> 0 < self.tick_rate < TICK_RATE_LIMIT && self.poll_rate > 0
                && self.poll_rate % self.tick_rate == 0,
            r matches Ok(ratio) ==> ratio >= 1 && ratio * self.tick_rate == self.poll_rate,
            r == Err::<u64, ConfigError>(ConfigError::TickRateTooHigh) <==> self.tick_rate
                >= TICK_RATE_LIMIT,
            r == Err::<u64, ConfigError>(ConfigError::TickRateZero) <==> self.tick_rate == 0,
            r == Err::<u64, ConfigError>(ConfigError::PollRateNotMultiple) <==> 0 < self.tick_rate
                < TICK_RATE_LIMIT && self.poll_rate % self.tick_rate != 0,
            r == Err::<u64, ConfigError>(ConfigError::PollRateZero) <==> 0 < self.tick_rate
                < TICK_RATE_LIMIT && self.poll_rate == 0,
    {
        if self.tick_rate >= TICK_RATE_LIMIT {
            Err(ConfigError::TickRateTooHigh)
        } else if self.tick_rate == 0 {
            Err(ConfigError::TickRateZero)
        } else if self.poll_rate == 0 {
            proof {
                vstd::arithmetic::div_mod::lemma_small_mod(0, self.tick_rate as nat);
            }
            Err(ConfigError::PollRateZero)
        } else if self.poll_rate % self.tick_rate != 0 {
            Err(ConfigError::PollRateNotMultiple)
        } else {
            let ratio: u64 = self.poll_rate / self.tick_rate;
            proof {
                vstd::arithmetic::div_mod::lemma_fundamental_div_mod(
                    self.poll_rate as int,
                    self.tick_rate as int,
                );
                assert(ratio >= 1) by (nonlinear_arith)
                    requires
                        self.poll_rate > 0,
                        self.tick_rate > 0,
                        self.poll_rate as int == self.tick_rate as int * ratio as int,
                ;
                assert(ratio * self.tick_rate == self.tick_rate * ratio) by (nonlinear_arith);
            }
            Ok(ratio)
        }
    }

    /// The log level that the debug option selects, if debug mode is on.
    pub fn log_level(&self) -> (level: Option<LogLevel>)
        ensures
            self.debug is None ==> level is None,
            self.debug matches Some(name) ==> level == Some(level_for_name(lowercase_of(name@))),
    {
        match &self.debug {
            None => None,
            Some(name) => {
                let lower = lowercase(name.as_str());
                Some(log_level_for(lower.as_str()))
            },
        }
    }
}

} // verus!
