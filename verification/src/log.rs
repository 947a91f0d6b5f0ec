//! Logging levels and the level filter of the tracing logger.

use vstd::prelude::*;

verus! {

/// Logging verbosity levels, from none to the most verbose.
#[derive(Debug, Clone, Copy, PartialEq, Eq, Structural)]
pub enum Level {
    Disabled,
    Error,
    Warn,
    Info,
    Debug,
}

/// The rank of a level: 0 for `Disabled` up to 4 for `Debug`.
pub open spec fn level_rank(l: Level) -> u8 {
    match l {
        Level::Disabled => 0,
        Level::Error => 1,
        Level::Warn => 2,
        Level::Info => 3,
        Level::Debug => 4,
    }
}

/// The level of a number: 0 to 3 name a level, anything above is `Debug`.
pub open spec fn level_of(v: u8) -> Level {
    if v == 0 {
        Level::Disabled
    } else if v == 1 {
        Level::Error
    } else if v == 2 {
        Level::Warn
    } else if v == 3 {
        Level::Info
    } else {
        Level::Debug
    }
}

impl Level {
    /// The rank of the level.
    pub fn rank(self) -> (r: u8)
        ensures
            r == level_rank(self),
    {
        match self {
            Level::Disabled => 0,
            Level::Error => 1,
            Level::Warn => 2,
            Level::Info => 3,
            Level::Debug => 4,
        }
    }
}

impl From<u8> for Level {
    fn from(v: u8) -> (r: Self) {
        if v == 0 {
            Level::Disabled
        } else if v == 1 {
            Level::Error
        } else if v == 2 {
            Level::Warn
        } else if v == 3 {
            Level::Info
        } else {
            Level::Debug
        }
    }
}

impl vstd::std_specs::convert::FromSpecImpl<u8> for Level {
    open spec fn obeys_from_spec() -> bool {
        true
    }

    open spec fn from_spec(v: u8) -> Level {
        level_of(v)
    }
}

/// A logger that discards every message.
#[derive(Clone, Copy, Default, Debug)]
pub struct NoOpLogger;

impl NoOpLogger {
    /// No level is ever enabled.
    pub fn enabled(&self, level: Level) -> (r: bool)
        ensures
            !r,
    {
        false
    }
}

/// A logger that writes through `tracing`, honouring a minimum level.
#[derive(Clone, Copy, Debug)]
pub struct TracingLogger {
    pub level: Level,
}

impl TracingLogger {
    pub fn new(level: Level) -> (r: Self)
        ensures
            r.level == level,
    {
        TracingLogger { level }
    }

    /// Whether messages of `level` are written: at most as verbose as the
    /// configured level, and never when logging is disabled.
    pub fn enabled(&self, level: Level) -> (r: bool)
        ensures
            r == (level_rank(level) <= level_rank(self.level) && self.level != Level::Disabled),
    {
        level.rank() <= self.level.rank() && self.level != Level::Disabled
    }
}

} // verus!
