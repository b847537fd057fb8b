//! Severity levels and their canonical wire spelling.

use vstd::prelude::*;

verus! {

/// The fixed, ordered set of severities a record may carry, from most to
/// least severe.
#[derive(Clone, Copy, Debug, PartialEq, Eq, Structural)]
pub enum Level {
    Error,
    Warn,
    Info,
    Debug,
    Trace,
}

impl Level {
    /// Rank of a severity: smaller means more severe (`Error` is 1, `Trace` is 5).
    pub open spec fn spec_severity(self) -> int {
        match self {
            Level::Error => 1,
            Level::Warn => 2,
            Level::Info => 3,
            Level::Debug => 4,
            Level::Trace => 5,
        }
    }

    /// The canonical level-name spelling used on the wire.
    pub open spec fn spec_name(self) -> Seq<char> {
        match self {
            Level::Error => "ERROR"@,
            Level::Warn => "WARN"@,
            Level::Info => "INFO"@,
            Level::Debug => "DEBUG"@,
            Level::Trace => "TRACE"@,
        }
    }

    pub fn severity(self) -> (r: u8)
        ensures
            r as int == self.spec_severity(),
    {
        match self {
            Level::Error => 1,
            Level::Warn => 2,
            Level::Info => 3,
            Level::Debug => 4,
            Level::Trace => 5,
        }
    }

    pub fn as_str(self) -> (r: &'static str)
        ensures
            r@ == self.spec_name(),
    {
        match self {
            Level::Error => "ERROR",
            Level::Warn => "WARN",
            Level::Info => "INFO",
            Level::Debug => "DEBUG",
            Level::Trace => "TRACE",
        }
    }

    /// Whether a record of this severity passes a sink whose minimum accepted
    /// severity is `min`: `None` accepts everything.
    pub open spec fn spec_passes(self, min: Option<Level>) -> bool {
        match min {
            None => true,
            Some(m) => self.spec_severity() <= m.spec_severity(),
        }
    }

    pub fn passes(self, min: Option<Level>) -> (r: bool)
        ensures
            r == self.spec_passes(min),
    {
        match min {
            None => true,
            Some(m) => self.severity() <= m.severity(),
        }
    }
}

/// A level as it is written on the wire; it renders as the canonical
/// upper-case level name.
#[derive(Clone, Copy, Debug, PartialEq, Eq, Structural)]
pub struct SerializableLevel(pub Level);

impl SerializableLevel {
    pub fn as_str(self) -> (r: &'static str)
        ensures
            r@ == self.0.spec_name(),
    {
        self.0.as_str()
    }
}

impl From<Level> for SerializableLevel {
    fn from(value: Level) -> (r: SerializableLevel) {
        SerializableLevel(value)
    }
}

impl vstd::std_specs::convert::FromSpecImpl<Level> for SerializableLevel {
    open spec fn obeys_from_spec() -> bool {
        true
    }

    open spec fn from_spec(value: Level) -> SerializableLevel {
        SerializableLevel(value)
    }
}

} // verus!
