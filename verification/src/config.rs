//! The two settings of the service, the endpoint and the interval, and how
//! they are made from the text that the environment holds for them.

use crate::decimal::{decimal_text, lemma_parse_of_decimal_text, parse_u64, parse_u64_spec};
use vstd::prelude::*;
use vstd::string::*;

verus! {

/// The environment variable that names the endpoint.
pub const URL_VARIABLE: &'static str = "PUSH_URL";

/// The environment variable that gives the seconds between two heartbeats.
pub const INTERVAL_VARIABLE: &'static str = "PUSH_INTERVAL_SECONDS";

/// The seconds between two heartbeats where the environment gives none.
pub const DEFAULT_INTERVAL_SECONDS: u64 = 60;

/// Why the service cannot start.
#[derive(Clone, Copy, Debug, PartialEq, Eq, Structural)]
pub enum ConfigError {
    /// No endpoint is set.
    MissingUrl,
    /// The endpoint is set to the empty text.
    EmptyUrl,
    /// The interval is set, and is not a whole number of seconds above zero.
    InvalidInterval,
}

impl ConfigError {
    /// The message with which the service gives up.
    pub open spec fn message_text(self) -> Seq<char> {
        match self {
            ConfigError::MissingUrl => "ERROR: PUSH_URL environment variable is not set."@,
            ConfigError::EmptyUrl => "ERROR: PUSH_URL environment variable is empty."@,
            ConfigError::InvalidInterval => "ERROR: Invalid interval value."@,
        }
    }

    /// The message with which the service gives up.
    pub fn message(self) -> (text: &'static str)
        ensures
            text@ == self.message_text(),
    {
        match self {
            ConfigError::MissingUrl => "ERROR: PUSH_URL environment variable is not set.",
            ConfigError::EmptyUrl => "ERROR: PUSH_URL environment variable is empty.",
            ConfigError::InvalidInterval => "ERROR: Invalid interval value.",
        }
    }
}

/// The settings as a mathematical value.
pub struct ConfigView {
    pub url: Seq<char>,
    pub interval_seconds: u64,
}

impl ConfigView {
    /// What holds of every configuration: the endpoint is not empty and the
    /// interval is above zero.
    pub open spec fn wf(self) -> bool {
        self.url.len() > 0 && self.interval_seconds > 0
    }
}

/// The settings of the service. They are made once, by `Config::from_values`,
/// and never change: the endpoint is not empty and the interval is above zero.
#[derive(Debug)]
pub struct Config {
    url: String,
    interval_seconds: u64,
}

impl View for Config {
    type V = ConfigView;

    closed spec fn view(&self) -> ConfigView {
        ConfigView { url: self.url@, interval_seconds: self.interval_seconds }
    }
}

/// The text of an optional string.
pub open spec fn text_of(value: Option<String>) -> Option<Seq<char>> {
    match value {
        Some(text) => Some(text@),
        None => None,
    }
}

/// The interval that the text of `PUSH_INTERVAL_SECONDS` stands for: 60 where
/// the variable is not set, the number where it holds a decimal number above
/// zero that fits in 64 bits, and none for any other text.
pub open spec fn interval_of(text: Option<Seq<char>>) -> Option<u64> {
    match text {
        None => Some(DEFAULT_INTERVAL_SECONDS),
        Some(digits) => match parse_u64_spec(digits) {
            Some(seconds) => if seconds > 0 {
                Some(seconds)
            } else {
                None
            },
            None => None,
        },
    }
}

/// The configuration that the two variables stand for, or the reason why
/// there is none. The endpoint is looked at first.
pub open spec fn config_of(url: Option<Seq<char>>, interval: Option<Seq<char>>) -> Result<
    ConfigView,
    ConfigError,
> {
    match url {
        None => Err(ConfigError::MissingUrl),
        Some(target) => if target.len() == 0 {
            Err(ConfigError::EmptyUrl)
        } else {
            match interval_of(interval) {
                Some(seconds) => Ok(ConfigView { url: target, interval_seconds: seconds }),
                None => Err(ConfigError::InvalidInterval),
            }
        },
    }
}

/// Reads the interval from the text of `PUSH_INTERVAL_SECONDS`, `None` where
/// the variable is not set.
pub fn parse_interval(text: Option<&str>) -> (seconds: Option<u64>)
    ensures
        seconds == interval_of(
            match text {
                Some(t) => Some(t@),
                None => None,
            },
        ),
{
    match text {
        None => Some(DEFAULT_INTERVAL_SECONDS),
        Some(digits) => match parse_u64(digits) {
            Some(seconds) => if seconds > 0 {
                Some(seconds)
            } else {
                None
            },
            None => None,
        },
    }
}

impl Config {
    #[verifier::type_invariant]
    spec fn valid(self) -> bool {
        self@.wf()
    }

    /// Makes the configuration from the values of `PUSH_URL` and
    /// `PUSH_INTERVAL_SECONDS`, each `None` where the variable is not set.
    pub fn from_values(url: Option<String>, interval: Option<String>) -> (result: Result<
        Config,
        ConfigError,
    >)
        ensures
            match config_of(text_of(url), text_of(interval)) {
                Ok(view) => result matches Ok(config) && config@ == view,
                Err(reason) => result matches Err(error) && error == reason,
            },
    {
        let target = match url {
            Some(target) => target,
            None => {
                return Err(ConfigError::MissingUrl);
            },
        };
        if target.as_str().is_empty() {
            return Err(ConfigError::EmptyUrl);
        }
        let seconds = match &interval {
            Some(text) => parse_interval(Some(text.as_str())),
            None => parse_interval(None),
        };
        match seconds {
            Some(interval_seconds) => Ok(Config { url: target, interval_seconds }),
            None => Err(ConfigError::InvalidInterval),
        }
    }

    /// The endpoint that each heartbeat goes to; never empty.
    pub fn url(&self) -> (url: &str)
        ensures
            url@ == self@.url,
            url@.len() > 0,
    {
        proof {
            use_type_invariant(self);
        }
        self.url.as_str()
    }

    /// The seconds between two heartbeats; never zero.
    pub fn interval_seconds(&self) -> (seconds: u64)
        ensures
            seconds == self@.interval_seconds,
            seconds > 0,
    {
        proof {
            use_type_invariant(self);
        }
        self.interval_seconds
    }
}

/// A configuration that was made satisfies what holds of every
/// configuration: its endpoint is not empty and its interval is above zero.
pub proof fn lemma_config_is_well_formed(url: Option<Seq<char>>, interval: Option<Seq<char>>)
    ensures
        config_of(url, interval) matches Ok(config) ==> config.wf(),
{
}

/// Without an endpoint there is no configuration, whatever the interval.
pub proof fn lemma_missing_url_is_fatal(interval: Option<Seq<char>>)
    ensures
        config_of(None, interval) == Err::<ConfigView, ConfigError>(ConfigError::MissingUrl),
{
}

/// An interval that is set and is no decimal number above zero leaves no
/// configuration, whatever the endpoint.
pub proof fn lemma_bad_interval_is_fatal(url: Option<Seq<char>>, interval: Seq<char>)
    requires
        parse_u64_spec(interval) is None || parse_u64_spec(interval) == Some(0u64),
    ensures
        config_of(url, Some(interval)) is Err,
{
}

/// An interval that is not set counts as sixty seconds: the configuration is
/// the one that the text `60` gives, for every endpoint.
pub proof fn lemma_default_interval_is_sixty(url: Option<Seq<char>>)
    ensures
        interval_of(None) == interval_of(Some("60"@)),
        config_of(url, None) == config_of(url, Some("60"@)),
{
    reveal_strlit("60");
    lemma_parse_of_decimal_text(60);
    reveal_with_fuel(decimal_text, 2);
    assert("60"@ =~= decimal_text(60));
}

} // verus!
