//! The debug toggle, and the lines that are put out while it is on. Printing
//! them is the caller's work.
use vstd::prelude::*;
use vstd::string::*;
use crate::outside::duration_text;
use crate::outside::elapsed_since;
use crate::outside::instant_now;
use crate::text::join;

verus! {

/// The debug toggle.
#[derive(Debug, Clone, Copy, PartialEq, Eq, Structural)]
pub struct DebugMode {
    pub enabled: bool,
}

/// The line that reports how long a measured action took.
pub open spec fn benchmark_line(name: Seq<char>, took: Seq<char>) -> Seq<char> {
    "⏱️  [BENCHMARK] "@ + name + " took "@ + took
}

impl DebugMode {
    /// A toggle that is off.
    pub fn new() -> (r: DebugMode)
        ensures
            !r.enabled,
    {
        DebugMode { enabled: false }
    }

    /// Turns debugging on. Returns the line that says so.
    pub fn enable(&mut self) -> (r: String)
        ensures
            final(self).enabled,
            r@ == "🐛 Debug Mode: ENABLED"@,
    {
        self.enabled = true;
        String::from_str("🐛 Debug Mode: ENABLED")
    }

    /// Turns debugging off. Returns the line that says so.
    pub fn disable(&mut self) -> (r: String)
        ensures
            !final(self).enabled,
            r@ == "🐛 Debug Mode: DISABLED"@,
    {
        self.enabled = false;
        String::from_str("🐛 Debug Mode: DISABLED")
    }

    /// Whether debugging is on.
    pub fn is_enabled(&self) -> (r: bool)
        ensures
            r == self.enabled,
    {
        self.enabled
    }

    /// The line for a debugging message, put out while debugging is on.
    pub fn log(&self, msg: &str) -> (r: Option<String>)
        ensures
            r is Some <==> self.enabled,
            r is Some ==> r->Some_0@ == "🐛 [DEBUG] "@ + msg@,
    {
        if self.enabled {
            Some(join("🐛 [DEBUG] ", msg))
        } else {
            None
        }
    }

    /// The line for a named value, already rendered as text, put out while
    /// debugging is on.
    pub fn log_value(&self, name: &str, value: &str) -> (r: Option<String>)
        ensures
            r is Some <==> self.enabled,
            r is Some ==> r->Some_0@ == "🐛 [DEBUG] "@ + name@ + " = "@ + value@,
    {
        if self.enabled {
            let mut line = String::from_str("🐛 [DEBUG] ");
            line.append(name);
            line.append(" = ");
            line.append(value);
            Some(line)
        } else {
            None
        }
    }

    /// Runs `f` and hands back what it returns. While debugging is on, the
    /// run is timed, and the line that reports the time comes back too.
    pub fn measure<F: FnOnce() -> R, R>(&self, name: &str, f: F) -> (r: (R, Option<String>))
        requires
            call_requires(f, ()),
        ensures
            call_ensures(f, (), r.0),
            r.1 is Some <==> self.enabled,
            r.1 is Some ==> exists|took: Seq<char>|
                r.1->Some_0@ == #[trigger] benchmark_line(name@, took),
    {
        if self.enabled {
            let start = instant_now();
            let result = f();
            let took = duration_text(&elapsed_since(&start));
            let mut line = String::from_str("⏱️  [BENCHMARK] ");
            line.append(name);
            line.append(" took ");
            line.append(took.as_str());
            assert(line@ == benchmark_line(name@, took@));
            (result, Some(line))
        } else {
            (f(), None)
        }
    }
}

} // verus!
