//! Session configuration: the one recognised option and its default.

use vstd::prelude::*;

verus! {

/// The pause between two samples when the configuration names none.
pub const DEFAULT_POLL_INTERVAL_MS: u64 = 500;

/// What a configuration holds under an option's key.
#[derive(Debug, Clone, Copy, PartialEq, Eq, Structural)]
pub enum ConfigValue {
    /// The key is not there.
    Absent,
    /// The key holds this integer.
    Integer(i128),
    /// The key holds something that is not an integer.
    NotAnInteger,
}

/// The configuration of a session.
#[derive(Debug, Clone, Copy, PartialEq, Eq, Structural)]
pub struct SessionConfig {
    /// The option `poll_interval_ms`: how long the worker sleeps between
    /// two samples, in milliseconds.
    pub poll_interval_ms: ConfigValue,
}

/// Why a session operation was refused.
#[derive(Debug, Clone, Copy, PartialEq, Eq, Structural)]
pub enum SessionError {
    /// `poll_interval_ms` is present but is not an integer of at least 1
    /// that fits in 64 bits.
    InvalidPollInterval,
}

impl SessionError {
    /// A sentence that describes the error.
    pub fn message(&self) -> (text: String)
        ensures
            text@ == "poll_interval_ms must be a positive integer"@,
    {
        match self {
            SessionError::InvalidPollInterval => "poll_interval_ms must be a positive integer".to_owned(),
        }
    }
}

impl SessionConfig {
    /// The interval that this configuration asks for: the default when the
    /// option is absent, the option's value when it is an integer from 1 to
    /// `u64::MAX`, and none otherwise.
    pub open spec fn interval(self) -> Option<u64> {
        match self.poll_interval_ms {
            ConfigValue::Absent => Some(DEFAULT_POLL_INTERVAL_MS),
            ConfigValue::Integer(n) => if 1 <= n <= u64::MAX {
                Some(n as u64)
            } else {
                None
            },
            ConfigValue::NotAnInteger => None,
        }
    }

    /// A configuration without options.
    pub fn new() -> (cfg: SessionConfig)
        ensures
            cfg.poll_interval_ms == ConfigValue::Absent,
            cfg.interval() == Some(DEFAULT_POLL_INTERVAL_MS),
    {
        SessionConfig { poll_interval_ms: ConfigValue::Absent }
    }

    /// A configuration that asks for one sample every `millis` milliseconds.
    pub fn with_poll_interval_ms(millis: u64) -> (cfg: SessionConfig)
        ensures
            cfg.poll_interval_ms == ConfigValue::Integer(millis as i128),
            millis >= 1 ==> cfg.interval() == Some(millis),
            millis == 0 ==> cfg.interval() is None,
    {
        SessionConfig { poll_interval_ms: ConfigValue::Integer(millis as i128) }
    }

    /// Resolves the poll interval, or refuses the configuration.
    pub fn resolve(&self) -> (interval: Result<u64, SessionError>)
        ensures
            match self.interval() {
                Some(millis) => interval == Ok::<u64, SessionError>(millis),
                None => interval == Err::<u64, SessionError>(SessionError::InvalidPollInterval),
            },
    {
        match self.poll_interval_ms {
            ConfigValue::Absent => Ok(DEFAULT_POLL_INTERVAL_MS),
            ConfigValue::Integer(n) => {
                if 1 <= n && n <= 0xffff_ffff_ffff_ffff {
                    Ok(n as u64)
                } else {
                    Err(SessionError::InvalidPollInterval)
                }
            },
            ConfigValue::NotAnInteger => Err(SessionError::InvalidPollInterval),
        }
    }
}

} // verus!
