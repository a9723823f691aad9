use vstd::prelude::*;

verus! {

/// How serious a record is. Listed from the most severe to the least.
#[derive(Clone, Copy, Debug, PartialEq, Eq, Structural)]
pub enum Severity {
    Error,
    Warn,
    Info,
    Debug,
    Trace,
}

impl Severity {
    /// Position in the ordering: a smaller rank is more severe.
    pub open spec fn rank(self) -> nat {
        match self {
            Severity::Error => 1,
            Severity::Warn => 2,
            Severity::Info => 3,
            Severity::Debug => 4,
            Severity::Trace => 5,
        }
    }

    /// True when `self` is as severe as `threshold` or more.
    pub open spec fn at_or_above(self, threshold: Severity) -> bool {
        self.rank() <= threshold.rank()
    }

    /// The upper-case name printed in a log line.
    pub open spec fn spec_name(self) -> Seq<char> {
        match self {
            Severity::Error => seq!['E', 'R', 'R', 'O', 'R'],
            Severity::Warn => seq!['W', 'A', 'R', 'N'],
            Severity::Info => seq!['I', 'N', 'F', 'O'],
            Severity::Debug => seq!['D', 'E', 'B', 'U', 'G'],
            Severity::Trace => seq!['T', 'R', 'A', 'C', 'E'],
        }
    }

    pub fn rank_of(&self) -> (r: u8)
        ensures
            r as nat == self.rank(),
    {
        match self {
            Severity::Error => 1,
            Severity::Warn => 2,
            Severity::Info => 3,
            Severity::Debug => 4,
            Severity::Trace => 5,
        }
    }

    pub fn name(&self) -> (r: &'static str)
        ensures
            r@ == self.spec_name(),
    {
        match self {
            Severity::Error => {
                proof {
                    reveal_strlit("ERROR");
                }
                "ERROR"
            },
            Severity::Warn => {
                proof {
                    reveal_strlit("WARN");
                }
                "WARN"
            },
            Severity::Info => {
                proof {
                    reveal_strlit("INFO");
                }
                "INFO"
            },
            Severity::Debug => {
                proof {
                    reveal_strlit("DEBUG");
                }
                "DEBUG"
            },
            Severity::Trace => {
                proof {
                    reveal_strlit("TRACE");
                }
                "TRACE"
            },
        }
    }

    /// Whether a record of this severity passes `threshold`.
    pub fn passes(&self, threshold: Severity) -> (r: bool)
        ensures
            r == self.at_or_above(threshold),
    {
        self.rank_of() <= threshold.rank_of()
    }
}

/// Enablement is monotonic: a record more severe than an enabled one is
/// enabled too, and one less severe than a disabled one is disabled too.
pub proof fn lemma_enabled_monotonic(threshold: Severity, a: Severity, b: Severity)
    requires
        b.rank() <= a.rank(),
    ensures
        a.at_or_above(threshold) ==> b.at_or_above(threshold),
        !b.at_or_above(threshold) ==> !a.at_or_above(threshold),
{
}

/// The threshold itself is always enabled, and the least severe level is
/// enabled only under the least strict threshold.
pub proof fn lemma_threshold_bounds(threshold: Severity)
    ensures
        threshold.at_or_above(threshold),
        Severity::Error.at_or_above(threshold),
        Severity::Trace.at_or_above(threshold) <==> threshold == Severity::Trace,
{
}

} // verus!
