use crate::session::{exit_code, spec_exit_code, PtyEvent, UNKNOWN_EXIT_CODE};
use vstd::prelude::*;

verus! {

/// Where a session's lifecycle stands.
#[derive(Debug, Clone, Copy, PartialEq, Eq, Structural)]
pub enum LifecyclePhase {
    /// The process runs and nobody has asked it to stop.
    Running,
    /// Termination was requested; the process has not been seen to exit.
    Cancelling,
    /// The final event has been reported; nothing more will be.
    Finished,
}

/// What the task watching a process observed.
#[derive(Debug, Clone, PartialEq, Eq)]
pub enum LifecycleInput {
    /// A non-blocking poll of the process: its status code once it exited.
    Polled(Option<u32>),
    /// Asking the process for its status failed.
    WaitFailed(String),
    /// The registry asked for the session to end.
    CancelRequested,
    /// Killing the process failed.
    KillFailed(String),
}

/// What the task watching a process does next.
#[derive(Debug, Clone, PartialEq, Eq)]
pub enum LifecycleAction {
    /// Keep waiting for the process to exit or for a cancellation.
    Wait,
    /// Kill the process, then keep waiting for its exit.
    Kill,
    /// Report these events and stop: the session's life is over.
    Report(Vec<PtyEvent>),
}

/// An input that ends the session's life from a live phase.
pub open spec fn is_ending(input: LifecycleInput) -> bool {
    match input {
        LifecycleInput::Polled(status) => status is Some,
        LifecycleInput::WaitFailed(_) => true,
        LifecycleInput::CancelRequested => false,
        LifecycleInput::KillFailed(_) => true,
    }
}

pub open spec fn next_phase(phase: LifecyclePhase, input: LifecycleInput) -> LifecyclePhase {
    if phase == LifecyclePhase::Finished || is_ending(input) {
        LifecyclePhase::Finished
    } else if input is CancelRequested {
        LifecyclePhase::Cancelling
    } else {
        phase
    }
}

/// The events reported when `input` arrives in `phase`.
pub open spec fn step_events(phase: LifecyclePhase, input: LifecycleInput) -> Seq<PtyEvent> {
    if phase == LifecyclePhase::Finished {
        Seq::empty()
    } else {
        match input {
            LifecycleInput::Polled(Some(status)) => seq![PtyEvent::Terminated(spec_exit_code(status))],
            LifecycleInput::WaitFailed(msg) => seq![PtyEvent::Error(msg), PtyEvent::Terminated(UNKNOWN_EXIT_CODE)],
            LifecycleInput::KillFailed(msg) => seq![PtyEvent::Error(msg), PtyEvent::Terminated(UNKNOWN_EXIT_CODE)],
            _ => Seq::empty(),
        }
    }
}

/// Whether `input` arriving in `phase` calls for a kill.
pub open spec fn step_kills(phase: LifecyclePhase, input: LifecycleInput) -> bool {
    phase != LifecyclePhase::Finished && input is CancelRequested
}

/// Every event reported while `inputs` arrive in order, starting in `phase`.
pub open spec fn run_events(phase: LifecyclePhase, inputs: Seq<LifecycleInput>) -> Seq<PtyEvent>
    decreases inputs.len(),
{
    if inputs.len() == 0 {
        Seq::empty()
    } else {
        step_events(phase, inputs[0]) + run_events(next_phase(phase, inputs[0]), inputs.drop_first())
    }
}

/// Whether some input of the sequence ends a live session.
pub open spec fn has_ending(inputs: Seq<LifecycleInput>) -> bool
    decreases inputs.len(),
{
    inputs.len() > 0 && (is_ending(inputs[0]) || has_ending(inputs.drop_first()))
}

/// How many `Terminated` events a sequence holds.
pub open spec fn count_terminated(events: Seq<PtyEvent>) -> nat
    decreases events.len(),
{
    if events.len() == 0 {
        0
    } else {
        (if events[0] is Terminated { 1nat } else { 0nat }) + count_terminated(events.drop_first())
    }
}

/// The lifecycle of one session: it races the process's exit against a
/// request to terminate, and reports exactly one `Terminated` event.
pub struct Lifecycle {
    pub phase: LifecyclePhase,
}

impl Lifecycle {
    pub fn new() -> (r: Lifecycle)
        ensures
            r.phase == LifecyclePhase::Running,
    {
        Lifecycle { phase: LifecyclePhase::Running }
    }

    pub fn is_finished(&self) -> (r: bool)
        ensures
            r == (self.phase == LifecyclePhase::Finished),
    {
        self.phase == LifecyclePhase::Finished
    }

    /// Takes one observation and says what to do next.
    pub fn step(&mut self, input: LifecycleInput) -> (r: LifecycleAction)
        ensures
            final(self).phase == next_phase(old(self).phase, input),
            step_kills(old(self).phase, input) <==> r is Kill,
            match r {
                LifecycleAction::Report(events) => events@ == step_events(old(self).phase, input)
                    && events@.len() > 0,
                _ => step_events(old(self).phase, input).len() == 0,
            },
    {
        if self.phase == LifecyclePhase::Finished {
            return LifecycleAction::Wait;
        }
        match input {
            LifecycleInput::Polled(Some(status)) => {
                self.phase = LifecyclePhase::Finished;
                LifecycleAction::Report(vec![PtyEvent::Terminated(exit_code(status))])
            },
            LifecycleInput::Polled(None) => LifecycleAction::Wait,
            LifecycleInput::WaitFailed(msg) => {
                self.phase = LifecyclePhase::Finished;
                LifecycleAction::Report(vec![PtyEvent::Error(msg), PtyEvent::Terminated(UNKNOWN_EXIT_CODE)])
            },
            LifecycleInput::KillFailed(msg) => {
                self.phase = LifecyclePhase::Finished;
                LifecycleAction::Report(vec![PtyEvent::Error(msg), PtyEvent::Terminated(UNKNOWN_EXIT_CODE)])
            },
            LifecycleInput::CancelRequested => {
                self.phase = LifecyclePhase::Cancelling;
                LifecycleAction::Kill
            },
        }
    }
}

pub proof fn lemma_count_terminated_add(a: Seq<PtyEvent>, b: Seq<PtyEvent>)
    ensures
        count_terminated(a + b) == count_terminated(a) + count_terminated(b),
    decreases a.len(),
{
    if a.len() == 0 {
        assert(a + b =~= b);
    } else {
        assert((a + b).drop_first() =~= a.drop_first() + b);
        lemma_count_terminated_add(a.drop_first(), b);
    }
}

/// Once finished, a lifecycle reports nothing more.
pub proof fn lemma_finished_is_silent(inputs: Seq<LifecycleInput>)
    ensures
        run_events(LifecyclePhase::Finished, inputs).len() == 0,
    decreases inputs.len(),
{
    if inputs.len() > 0 {
        lemma_finished_is_silent(inputs.drop_first());
        assert(step_events(LifecyclePhase::Finished, inputs[0]) =~= Seq::empty());
    }
}

/// Whatever a live session observes, it reports exactly one `Terminated`
/// event, as its last event, once some observation ends its life (the
/// process exits, or waiting on or killing it fails), and none before.
/// Repeated termination requests add no further `Terminated` event.
pub proof fn lemma_exactly_one_terminated(phase: LifecyclePhase, inputs: Seq<LifecycleInput>)
    requires
        phase != LifecyclePhase::Finished,
    ensures
        has_ending(inputs) ==> count_terminated(run_events(phase, inputs)) == 1
            && run_events(phase, inputs).last() is Terminated,
        !has_ending(inputs) ==> count_terminated(run_events(phase, inputs)) == 0,
    decreases inputs.len(),
{
    if inputs.len() > 0 {
        let first = inputs[0];
        let rest = inputs.drop_first();
        let here = step_events(phase, first);
        let later = run_events(next_phase(phase, first), rest);
        lemma_count_terminated_add(here, later);
        assert(run_events(phase, inputs) == here + later);
        if is_ending(first) {
            lemma_finished_is_silent(rest);
            assert(later.len() == 0);
            assert(here + later =~= here);
            match first {
                LifecycleInput::Polled(status) => {
                    assert(count_terminated(here.drop_first()) == 0);
                    assert(count_terminated(here) == 1);
                    assert(here.last() is Terminated);
                },
                _ => {
                    assert(count_terminated(here.drop_first().drop_first()) == 0);
                    assert(count_terminated(here.drop_first()) == 1);
                    assert(count_terminated(here) == 1);
                    assert(here.last() is Terminated);
                },
            }
        } else {
            assert(here.len() == 0);
            assert(here + later =~= later);
            lemma_exactly_one_terminated(next_phase(phase, first), rest);
            assert(has_ending(inputs) == has_ending(rest));
        }
    }
}

} // verus!
