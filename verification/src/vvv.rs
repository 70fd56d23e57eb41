//! Verbosity: how much diagnostic output is wanted, and the lines that are
//! put out at each level. Printing them is the caller's work.
use vstd::prelude::*;
use vstd::std_specs::convert::FromSpecImpl;
use crate::text::join;

verus! {

/// The four levels of diagnostic output.
#[derive(Debug, Clone, Copy, PartialEq, Eq, Structural)]
pub enum VerboseLevel {
    Silent,
    Info,
    Debug,
    Trace,
}

/// The level that a number stands for: 0, 1 and 2 for the first three, any
/// other number for `Trace`.
pub open spec fn level_of(level: u8) -> VerboseLevel {
    if level == 0 {
        VerboseLevel::Silent
    } else if level == 1 {
        VerboseLevel::Info
    } else if level == 2 {
        VerboseLevel::Debug
    } else {
        VerboseLevel::Trace
    }
}

impl From<u8> for VerboseLevel {
    fn from(level: u8) -> (r: VerboseLevel) {
        match level {
            0 => VerboseLevel::Silent,
            1 => VerboseLevel::Info,
            2 => VerboseLevel::Debug,
            _ => VerboseLevel::Trace,
        }
    }
}

impl FromSpecImpl<u8> for VerboseLevel {
    open spec fn obeys_from_spec() -> bool {
        true
    }

    open spec fn from_spec(level: u8) -> VerboseLevel {
        level_of(level)
    }
}

impl VerboseLevel {
    /// The number of this level, 0 to 3.
    pub fn number(&self) -> (r: u8)
        ensures
            r <= 3,
            level_of(r) == *self,
    {
        match self {
            VerboseLevel::Silent => 0,
            VerboseLevel::Info => 1,
            VerboseLevel::Debug => 2,
            VerboseLevel::Trace => 3,
        }
    }
}

/// The verbosity setting: a level from 0 to 3.
#[derive(Debug, Clone, Copy)]
pub struct Verbose {
    level: u8,
}

impl Verbose {
    /// The level, 0 to 3.
    pub closed spec fn level(&self) -> u8 {
        self.level
    }

    /// The invariant of the setting: the level is at most 3.
    pub closed spec fn wf(&self) -> bool {
        self.level <= 3
    }

    /// A silent setting.
    pub fn new() -> (r: Verbose)
        ensures
            r.wf(),
            r.level() == 0,
    {
        Verbose { level: 0 }
    }

    /// Sets the level; a number above 3 counts as 3.
    pub fn set_level(&mut self, level: u8)
        ensures
            final(self).wf(),
            final(self).level() == if level <= 3 {
                level
            } else {
                3
            },
    {
        self.level = if level <= 3 {
            level
        } else {
            3
        };
    }

    /// The level that is set.
    pub fn get_level(&self) -> (r: VerboseLevel)
        ensures
            r == level_of(self.level()),
    {
        VerboseLevel::from(self.level)
    }

    /// The line for an informational message, put out from level 1.
    pub fn info(&self, msg: &str) -> (r: Option<String>)
        ensures
            r is Some <==> self.level() >= 1,
            r is Some ==> r->Some_0@ == "ℹ️  [INFO] "@ + msg@,
    {
        if self.level >= 1 {
            Some(join("ℹ️  [INFO] ", msg))
        } else {
            None
        }
    }

    /// The line for a debugging message, put out from level 2.
    pub fn debug(&self, msg: &str) -> (r: Option<String>)
        ensures
            r is Some <==> self.level() >= 2,
            r is Some ==> r->Some_0@ == "🔍 [DEBUG] "@ + msg@,
    {
        if self.level >= 2 {
            Some(join("🔍 [DEBUG] ", msg))
        } else {
            None
        }
    }

    /// The line for a tracing message, put out from level 3.
    pub fn trace(&self, msg: &str) -> (r: Option<String>)
        ensures
            r is Some <==> self.level() >= 3,
            r is Some ==> r->Some_0@ == "🔬 [TRACE] "@ + msg@,
    {
        if self.level >= 3 {
            Some(join("🔬 [TRACE] ", msg))
        } else {
            None
        }
    }

    /// The line for an error, put out at every level.
    pub fn error(msg: &str) -> (r: String)
        ensures
            r@ == "❌ [ERROR] "@ + msg@,
    {
        join("❌ [ERROR] ", msg)
    }

    /// The line for a success, put out at every level.
    pub fn success(msg: &str) -> (r: String)
        ensures
            r@ == "✅ [SUCCESS] "@ + msg@,
    {
        join("✅ [SUCCESS] ", msg)
    }

    /// The line for a warning, put out at every level.
    pub fn warn(msg: &str) -> (r: String)
        ensures
            r@ == "⚠️  [WARN] "@ + msg@,
    {
        join("⚠️  [WARN] ", msg)
    }
}

} // verus!
