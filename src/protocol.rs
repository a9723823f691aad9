use vstd::prelude::*;
use crate::format::{diagnostic, diagnostic_text, fatal, fatal_text};

verus! {

/// Where a delivery stands.
#[derive(Clone, Copy, Debug, PartialEq, Eq, Structural)]
pub enum Stage {
    /// The text is being written to the destination.
    Primary,
    /// The destination failed; the diagnostic is being written to the fallback.
    Diagnostic,
    /// The diagnostic went out; the text is being written again, to the fallback.
    Retry,
    /// The text went out.
    Delivered,
    /// The fallback failed too; the process must stop.
    Aborted,
}

/// What the caller, who holds the destination exclusively, must do next.
#[derive(Debug, PartialEq, Eq)]
pub enum Step {
    /// Write this text to the current destination and report the outcome.
    Write(String),
    /// Replace the destination by standard output, write this text to it and
    /// report the outcome.
    SwitchToFallback(String),
    /// Nothing is left to do.
    Done,
    /// Stop the process at once, giving this reason.
    Abort(String),
}

/// The mathematical form of a `Step`.
pub ghost enum StepModel {
    Write(Seq<char>),
    SwitchToFallback(Seq<char>),
    Done,
    Abort(Seq<char>),
}

impl View for Step {
    type V = StepModel;

    open spec fn view(&self) -> StepModel {
        match self {
            Step::Write(t) => StepModel::Write(t@),
            Step::SwitchToFallback(t) => StepModel::SwitchToFallback(t@),
            Step::Done => StepModel::Done,
            Step::Abort(t) => StepModel::Abort(t@),
        }
    }
}

/// The outcome of a write: `None` when it succeeded, else the error's text.
pub open spec fn outcome_model(outcome: Result<(), String>) -> Option<Seq<char>> {
    match outcome {
        Ok(()) => None,
        Err(e) => Some(e@),
    }
}

pub open spec fn is_terminal(stage: Stage) -> bool {
    stage == Stage::Delivered || stage == Stage::Aborted
}

/// The protocol: from a stage that is not terminal, with the delivery's `text`
/// and the outcome of the last write, the next stage and step.
pub open spec fn next(stage: Stage, text: Seq<char>, failure: Option<Seq<char>>) -> (
    Stage,
    StepModel,
) {
    match failure {
        None => match stage {
            Stage::Diagnostic => (Stage::Retry, StepModel::Write(text)),
            _ => (Stage::Delivered, StepModel::Done),
        },
        Some(e) => match stage {
            Stage::Primary => (Stage::Diagnostic, StepModel::SwitchToFallback(diagnostic_text(e))),
            _ => (Stage::Aborted, StepModel::Abort(fatal_text(e))),
        },
    }
}

/// One text on its way to the destination, with the fallback protocol.
pub struct Delivery {
    pub text: String,
    pub stage: Stage,
}

impl Delivery {
    /// Starts delivering `text`: the first step writes it to the destination.
    pub fn begin(text: String) -> (r: (Delivery, Step))
        ensures
            r.0.text@ == text@,
            r.0.stage == Stage::Primary,
            r.1@ == StepModel::Write(text@),
    {
        let first = text.clone();
        (Delivery { text, stage: Stage::Primary }, Step::Write(first))
    }

    pub fn is_finished(&self) -> (r: bool)
        ensures
            r == is_terminal(self.stage),
    {
        match self.stage {
            Stage::Delivered | Stage::Aborted => true,
            _ => false,
        }
    }

    /// Takes the outcome of the write that the last step asked for and
    /// decides the next step.
    pub fn advance(&mut self, outcome: Result<(), String>) -> (r: Step)
        requires
            !is_terminal(old(self).stage),
        ensures
            final(self).text@ == old(self).text@,
            (final(self).stage, r@) == next(old(self).stage, old(self).text@, outcome_model(outcome)),
    {
        match outcome {
            Ok(()) => match self.stage {
                Stage::Diagnostic => {
                    self.stage = Stage::Retry;
                    Step::Write(self.text.clone())
                },
                _ => {
                    self.stage = Stage::Delivered;
                    Step::Done
                },
            },
            Err(e) => match self.stage {
                Stage::Primary => {
                    self.stage = Stage::Diagnostic;
                    Step::SwitchToFallback(diagnostic(e.as_str()))
                },
                _ => {
                    self.stage = Stage::Aborted;
                    Step::Abort(fatal(e.as_str()))
                },
            },
        }
    }
}

/// With a working destination the text is written once, to the destination,
/// and nothing else is written.
pub proof fn lemma_working_destination(text: Seq<char>)
    ensures
        next(Stage::Primary, text, None) == (Stage::Delivered, StepModel::Done),
{
}

/// When the destination fails with `error`, the fallback receives the
/// diagnostic first and then the original text, and the delivery ends there.
pub proof fn lemma_fallback_order(text: Seq<char>, error: Seq<char>)
    ensures
        next(Stage::Primary, text, Some(error)) == (
            Stage::Diagnostic,
            StepModel::SwitchToFallback(diagnostic_text(error)),
        ),
        next(Stage::Diagnostic, text, None) == (Stage::Retry, StepModel::Write(text)),
        next(Stage::Retry, text, None) == (Stage::Delivered, StepModel::Done),
{
}

/// Once on the fallback, any failed write stops the process.
pub proof fn lemma_fallback_failure_aborts(stage: Stage, text: Seq<char>, error: Seq<char>)
    requires
        stage == Stage::Diagnostic || stage == Stage::Retry,
    ensures
        next(stage, text, Some(error)) == (Stage::Aborted, StepModel::Abort(fatal_text(error))),
{
}

/// How far a delivery has come; both terminal stages are furthest.
pub open spec fn progress(stage: Stage) -> nat {
    match stage {
        Stage::Primary => 0,
        Stage::Diagnostic => 1,
        Stage::Retry => 2,
        Stage::Delivered => 3,
        Stage::Aborted => 3,
    }
}

/// Each outcome moves the delivery forward, and a terminal stage is reached
/// exactly when the step asks for no more writes.
pub proof fn lemma_progress(stage: Stage, text: Seq<char>, failure: Option<Seq<char>>)
    requires
        !is_terminal(stage),
    ensures
        progress(next(stage, text, failure).0) > progress(stage),
        is_terminal(next(stage, text, failure).0) <==> (next(stage, text, failure).1 is Done
            || next(stage, text, failure).1 is Abort),
{
}

} // verus!
