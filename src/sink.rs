use vstd::prelude::*;
use crate::format::{format_line, line_text, prelude, prelude_text};
use crate::protocol::{Delivery, Stage, Step, StepModel};
use crate::severity::Severity;

verus! {

/// Relies on time::precise_time_ns: the value of the monotonic performance
/// counter, in nanoseconds. Nothing is promised of the value.
#[verifier::external_body]
fn clock_ns() -> u64 {
    time::precise_time_ns()
}

/// Declares log::SetLoggerError, the refusal that log::set_logger returns when a
/// handler is already installed; it is carried through unopened.
#[verifier::external_type_specification]
#[verifier::external_body]
pub struct ExSetLoggerError(log::SetLoggerError);

/// Why a sink could not be installed.
#[derive(Clone, Copy, Debug, PartialEq, Eq, Structural)]
pub enum InitError {
    /// A handler was installed before; it stays in place.
    AlreadyInitialized,
}

/// Maps the outcome of installing the process-wide handler to this library's
/// error: any refusal means that a handler was already in place.
pub fn registration_result(r: Result<(), log::SetLoggerError>) -> (out: Result<(), InitError>)
    ensures
        r is Ok <==> out is Ok,
        r is Err ==> out == Err::<(), InitError>(InitError::AlreadyInitialized),
{
    match r {
        Ok(()) => Ok(()),
        Err(_) => Err(InitError::AlreadyInitialized),
    }
}

/// Nanoseconds from `epoch` to `now` on a monotonic clock; zero if the
/// counter reads earlier than the epoch.
pub open spec fn elapsed(epoch: nat, now: nat) -> nat {
    if now >= epoch {
        (now - epoch) as nat
    } else {
        0
    }
}

/// The sink's fixed settings: the least severe level it emits, and the
/// counter reading taken when it was opened. A sink is only had from `open`
/// or `open_at`, together with the delivery of its banner.
pub struct Sink {
    threshold: Severity,
    epoch_ns: u64,
}

impl Sink {
    pub closed spec fn spec_threshold(self) -> Severity {
        self.threshold
    }

    pub closed spec fn spec_epoch(self) -> nat {
        self.epoch_ns as nat
    }

    /// Opens a sink whose epoch is the counter reading `epoch_ns`, together
    /// with the delivery of its banner for `version`, which goes out before
    /// any record.
    pub fn open_at(threshold: Severity, epoch_ns: u64, version: &str) -> (r: (
        Sink,
        Delivery,
        Step,
    ))
        ensures
            r.0.spec_threshold() == threshold,
            r.0.spec_epoch() == epoch_ns,
            r.1.text@ == prelude_text(version@),
            r.1.stage == Stage::Primary,
            r.2@ == StepModel::Write(prelude_text(version@)),
    {
        let (delivery, step) = Delivery::begin(prelude(version));
        (Sink { threshold, epoch_ns }, delivery, step)
    }

    /// Opens a sink whose epoch is the counter's value now, together with the
    /// delivery of its banner for `version`.
    pub fn open(threshold: Severity, version: &str) -> (r: (Sink, Delivery, Step))
        ensures
            r.0.spec_threshold() == threshold,
            r.1.text@ == prelude_text(version@),
            r.1.stage == Stage::Primary,
            r.2@ == StepModel::Write(prelude_text(version@)),
    {
        Sink::open_at(threshold, clock_ns(), version)
    }

    pub fn threshold(&self) -> (r: Severity)
        ensures
            r == self.spec_threshold(),
    {
        self.threshold
    }

    pub fn epoch_ns(&self) -> (r: u64)
        ensures
            r as nat == self.spec_epoch(),
    {
        self.epoch_ns
    }

    /// Whether records of `level` are emitted: exactly those at or above the
    /// threshold.
    pub fn is_enabled(&self, level: Severity) -> (r: bool)
        ensures
            r == level.at_or_above(self.spec_threshold()),
    {
        level.passes(self.threshold)
    }

    /// Nanoseconds since the epoch at counter reading `now_ns`.
    pub fn elapsed_ns(&self, now_ns: u64) -> (r: u64)
        ensures
            r as nat == elapsed(self.spec_epoch(), now_ns as nat),
            now_ns >= self.spec_epoch() ==> r == now_ns - self.spec_epoch(),
    {
        if now_ns >= self.epoch_ns {
            now_ns - self.epoch_ns
        } else {
            0
        }
    }

    /// The line for a record at counter reading `now_ns`, or `None` when
    /// `level` is disabled: a disabled record produces nothing.
    pub fn record(&self, level: Severity, now_ns: u64, message: &str) -> (r: Option<String>)
        ensures
            r is None <==> !level.at_or_above(self.spec_threshold()),
            r matches Some(line) ==> line@ == line_text(
                level,
                elapsed(self.spec_epoch(), now_ns as nat),
                message@,
            ),
    {
        if self.is_enabled(level) {
            Some(format_line(level, self.elapsed_ns(now_ns), message))
        } else {
            None
        }
    }

    /// Starts delivering a record stamped at counter reading `now_ns`, or
    /// `None` when `level` is disabled. The first step writes the whole line.
    pub fn emit_at(&self, level: Severity, now_ns: u64, message: &str) -> (r: Option<
        (Delivery, Step),
    >)
        ensures
            r is None <==> !level.at_or_above(self.spec_threshold()),
            r matches Some(p) ==> {
                &&& p.0.text@ == line_text(
                    level,
                    elapsed(self.spec_epoch(), now_ns as nat),
                    message@,
                )
                &&& p.0.stage == Stage::Primary
                &&& p.1@ == StepModel::Write(p.0.text@)
            },
    {
        match self.record(level, now_ns, message) {
            Some(line) => Some(Delivery::begin(line)),
            None => None,
        }
    }

    /// Starts delivering a record stamped with the counter's value now, or
    /// `None` when `level` is disabled.
    pub fn emit(&self, level: Severity, message: &str) -> (r: Option<
        (Delivery, Step),
    >)
        ensures
            r is None <==> !level.at_or_above(self.spec_threshold()),
            r matches Some(p) ==> {
                &&& exists|now: u64|
                    p.0.text@ == line_text(
                        level,
                        elapsed(self.spec_epoch(), now as nat),
                        message@,
                    )
                &&& p.0.stage == Stage::Primary
                &&& p.1@ == StepModel::Write(p.0.text@)
            },
    {
        let now = clock_ns();
        self.emit_at(level, now, message)
    }
}

/// Elapsed time never goes down while the counter goes up, and for a counter
/// reading at or after the epoch it is the distance to the epoch.
pub proof fn lemma_elapsed_monotonic(epoch: nat, t1: nat, t2: nat)
    requires
        t1 <= t2,
    ensures
        elapsed(epoch, t1) <= elapsed(epoch, t2),
        crate::format::ticks(elapsed(epoch, t1)) <= crate::format::ticks(elapsed(epoch, t2)),
        t1 >= epoch ==> elapsed(epoch, t1) == t1 - epoch,
{
    crate::format::lemma_ticks_monotonic(elapsed(epoch, t1), elapsed(epoch, t2));
}

} // verus!
