//! The relay loop as a state machine over mathematical values.
//!
//! [`next`] is the whole of the loop's policy. The executable scheduler is
//! proved to follow it step by step, and the laws of the loop are proved of it.
use crate::fee::FeeView;
use vstd::prelude::*;

verus! {

/// Where the loop stands within an iteration.
#[derive(Clone, Copy, Debug, PartialEq, Eq, Structural)]
pub enum Phase {
    /// Between two iterations: nothing is in flight.
    Idle,
    /// The heights of both chains are being read, for the log only.
    ProbingHeights,
    /// The validator-set relayer is at work.
    RelayingValsets,
    /// The batch relayer is at work.
    RelayingBatches,
    /// The event relayer is at work.
    RelayingEvents,
    /// The relays are done and the time they took is being measured.
    Pacing,
}

/// One of the three relay operations.
#[derive(Clone, Copy, Debug, PartialEq, Eq, Structural)]
pub enum Stage {
    /// Validator sets, towards the destination chain.
    Valsets,
    /// Transaction batches, towards the destination chain.
    Batches,
    /// Contract events, back from the destination chain.
    Events,
}

/// The state of the loop: its phase, the scan cursor, the fee and the target
/// length of one iteration in nanoseconds.
pub struct SchedulerView {
    pub phase: Phase,
    pub cursor: nat,
    pub fee: FeeView,
    pub target: nat,
}

/// What the outside world reports back to the loop. A failure is given by the
/// characters of its cause.
pub enum EventView {
    /// The rest between two iterations is over, or the loop starts.
    Wake,
    /// The heights were asked for. How that went is of no concern to the loop.
    HeightsProbed,
    /// The validator-set relayer returned.
    ValsetsRelayed(Result<(), Seq<char>>),
    /// The batch relayer returned.
    BatchesRelayed(Result<(), Seq<char>>),
    /// The event relayer returned, on success with the next unscanned height.
    EventsRelayed(Result<nat, Seq<char>>),
    /// The time since the iteration began, in nanoseconds.
    Elapsed(nat),
}

/// What the loop asks the outside world to do next.
pub enum ActionView {
    /// Begin an iteration: note the time and read both chains' heights.
    ProbeHeights,
    /// Run the validator-set relayer.
    RelayValsets { fee: FeeView, pacing_hint: nat },
    /// Run the batch relayer.
    RelayBatches { fee: FeeView, pacing_hint: nat },
    /// Run the event relayer from the height `cursor` on.
    RelayEvents { fee: FeeView, cursor: nat },
    /// Measure the time since the iteration began.
    MeasureElapsed,
    /// Rest for this many nanoseconds.
    Sleep(nat),
}

/// What the loop has to report about the event it was just given.
pub enum DiagnosticView {
    /// A relay operation failed, for the cause given.
    RelayFailed { stage: Stage, cause: Seq<char> },
    /// The event relayer handed back a height below the cursor.
    CursorRetreat { current: nat, attempted: nat },
}

/// The loop's answer to one event.
pub struct StepView {
    pub action: ActionView,
    pub diagnostic: Option<DiagnosticView>,
}

/// The state `s` in another phase.
pub open spec fn in_phase(s: SchedulerView, phase: Phase) -> SchedulerView {
    SchedulerView { phase, ..s }
}

/// The report owed for the outcome of the relay operation `stage`: the cause of
/// a failure, nothing for a success.
pub open spec fn failure_report<T>(stage: Stage, outcome: Result<T, Seq<char>>) -> Option<
    DiagnosticView,
> {
    match outcome {
        Ok(_) => None,
        Err(cause) => Some(DiagnosticView::RelayFailed { stage, cause }),
    }
}

/// The cursor after the event relayer returned `outcome`: the height it handed
/// back where that is not below the cursor, the cursor as it was otherwise.
pub open spec fn cursor_after(cursor: nat, outcome: Result<nat, Seq<char>>) -> nat {
    match outcome {
        Ok(height) if height >= cursor => height,
        _ => cursor,
    }
}

/// The report owed for the outcome of the event relayer: the cause of a
/// failure, or the retreat that a returned height below the cursor would be.
pub open spec fn events_report(cursor: nat, outcome: Result<nat, Seq<char>>) -> Option<
    DiagnosticView,
> {
    match outcome {
        Ok(height) if height < cursor => Some(
            DiagnosticView::CursorRetreat { current: cursor, attempted: height },
        ),
        _ => failure_report(Stage::Events, outcome),
    }
}

/// The rest owed after an iteration that took `elapsed` nanoseconds against a
/// target of `target`: the remainder of the target, or nothing once the target
/// is met.
pub open spec fn rest_after(target: nat, elapsed: nat) -> Option<nat> {
    if elapsed < target {
        Some((target - elapsed) as nat)
    } else {
        None
    }
}

/// The loop's policy: the state and the answer that follow from the state `s`
/// and the event `e`, or `None` where `e` is not what the phase of `s` waits
/// for.
///
/// Each phase waits for exactly one kind of event. The three relay phases
/// move on whatever the outcome, so that no relayer's failure keeps another
/// from running. The cursor moves only on a successful event relay. The rest
/// after an iteration is skipped once the iteration has used up the target.
pub open spec fn next(s: SchedulerView, e: EventView) -> Option<(SchedulerView, StepView)> {
    match (s.phase, e) {
        (Phase::Idle, EventView::Wake) => Some(
            (
                in_phase(s, Phase::ProbingHeights),
                StepView { action: ActionView::ProbeHeights, diagnostic: None },
            ),
        ),
        (Phase::ProbingHeights, EventView::HeightsProbed) => Some(
            (
                in_phase(s, Phase::RelayingValsets),
                StepView {
                    action: ActionView::RelayValsets { fee: s.fee, pacing_hint: s.target },
                    diagnostic: None,
                },
            ),
        ),
        (Phase::RelayingValsets, EventView::ValsetsRelayed(outcome)) => Some(
            (
                in_phase(s, Phase::RelayingBatches),
                StepView {
                    action: ActionView::RelayBatches { fee: s.fee, pacing_hint: s.target },
                    diagnostic: failure_report(Stage::Valsets, outcome),
                },
            ),
        ),
        (Phase::RelayingBatches, EventView::BatchesRelayed(outcome)) => Some(
            (
                in_phase(s, Phase::RelayingEvents),
                StepView {
                    action: ActionView::RelayEvents { fee: s.fee, cursor: s.cursor },
                    diagnostic: failure_report(Stage::Batches, outcome),
                },
            ),
        ),
        (Phase::RelayingEvents, EventView::EventsRelayed(outcome)) => Some(
            (
                SchedulerView {
                    phase: Phase::Pacing,
                    cursor: cursor_after(s.cursor, outcome),
                    ..s
                },
                StepView {
                    action: ActionView::MeasureElapsed,
                    diagnostic: events_report(s.cursor, outcome),
                },
            ),
        ),
        (Phase::Pacing, EventView::Elapsed(elapsed)) => match rest_after(s.target, elapsed) {
            Some(rest) => Some(
                (
                    in_phase(s, Phase::Idle),
                    StepView { action: ActionView::Sleep(rest), diagnostic: None },
                ),
            ),
            None => Some(
                (
                    in_phase(s, Phase::ProbingHeights),
                    StepView { action: ActionView::ProbeHeights, diagnostic: None },
                ),
            ),
        },
        _ => None,
    }
}

/// Whether the phase of `s` waits for the event `e`.
pub open spec fn accepts(s: SchedulerView, e: EventView) -> bool {
    next(s, e) is Some
}

/// The state after the event `e`: the one [`next`] gives, or `s` itself where
/// `e` is refused.
pub open spec fn state_after(s: SchedulerView, e: EventView) -> SchedulerView {
    match next(s, e) {
        Some((state, _)) => state,
        None => s,
    }
}

/// The state after all of `events`, taken in order from `s`.
pub open spec fn state_after_all(s: SchedulerView, events: Seq<EventView>) -> SchedulerView
    decreases events.len(),
{
    if events.len() == 0 {
        s
    } else {
        state_after(state_after_all(s, events.drop_last()), events.last())
    }
}

} // verus!
