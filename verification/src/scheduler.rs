//! The relay scheduler: the executable state machine of the loop.
//!
//! The caller owns the chains, the relayers and the clock. It hands the
//! scheduler one [`Event`] at a time and performs the [`Action`] it gets back.
use crate::cursor::Cursor;
use crate::fee::{Fee, FeePolicy};
use crate::height::BlockHeight;
use crate::model::{
    next, state_after, ActionView, DiagnosticView, EventView, Phase, SchedulerView, Stage, StepView,
};
use crate::pacing::{loop_speed, time_to_rest, Span, LOOP_SPEED_SECS, NANOS_PER_SEC};
use vstd::prelude::*;

verus! {

/// Why a relay operation failed.
#[derive(Debug, PartialEq, Eq)]
pub struct RelayError {
    /// The cause, for the log.
    pub cause: String,
}

impl View for RelayError {
    type V = Seq<char>;

    open spec fn view(&self) -> Seq<char> {
        self.cause@
    }
}

/// What the outside world reports back to the scheduler.
#[derive(Debug, PartialEq, Eq)]
pub enum Event {
    /// The rest between two iterations is over, or the loop starts.
    Wake,
    /// The heights were asked for. How that went is of no concern here.
    HeightsProbed,
    /// The validator-set relayer returned.
    ValsetsRelayed(Result<(), RelayError>),
    /// The batch relayer returned.
    BatchesRelayed(Result<(), RelayError>),
    /// The event relayer returned, on success with the next unscanned height.
    EventsRelayed(Result<BlockHeight, RelayError>),
    /// The time since the iteration began.
    Elapsed(Span),
}

impl View for Event {
    type V = EventView;

    open spec fn view(&self) -> EventView {
        match *self {
            Event::Wake => EventView::Wake,
            Event::HeightsProbed => EventView::HeightsProbed,
            Event::ValsetsRelayed(Ok(_)) => EventView::ValsetsRelayed(Ok(())),
            Event::ValsetsRelayed(Err(e)) => EventView::ValsetsRelayed(Err(e@)),
            Event::BatchesRelayed(Ok(_)) => EventView::BatchesRelayed(Ok(())),
            Event::BatchesRelayed(Err(e)) => EventView::BatchesRelayed(Err(e@)),
            Event::EventsRelayed(Ok(height)) => EventView::EventsRelayed(Ok(height@)),
            Event::EventsRelayed(Err(e)) => EventView::EventsRelayed(Err(e@)),
            Event::Elapsed(span) => EventView::Elapsed(span@),
        }
    }
}

/// What the scheduler asks the outside world to do next.
#[derive(Debug, PartialEq, Eq)]
pub enum Action {
    /// Begin an iteration: note the time and read both chains' heights. A
    /// failed read is logged or dropped and never reported back.
    ProbeHeights,
    /// Run the validator-set relayer, paying `fee`.
    RelayValsets { fee: Fee, pacing_hint: Span },
    /// Run the batch relayer, paying `fee`.
    RelayBatches { fee: Fee, pacing_hint: Span },
    /// Run the event relayer from the height `cursor` on, paying `fee`.
    RelayEvents { fee: Fee, cursor: BlockHeight },
    /// Measure the time since the iteration began.
    MeasureElapsed,
    /// Rest for the span given.
    Sleep(Span),
}

impl View for Action {
    type V = ActionView;

    open spec fn view(&self) -> ActionView {
        match *self {
            Action::ProbeHeights => ActionView::ProbeHeights,
            Action::RelayValsets { fee, pacing_hint } => ActionView::RelayValsets {
                fee: fee@,
                pacing_hint: pacing_hint@,
            },
            Action::RelayBatches { fee, pacing_hint } => ActionView::RelayBatches {
                fee: fee@,
                pacing_hint: pacing_hint@,
            },
            Action::RelayEvents { fee, cursor } => ActionView::RelayEvents {
                fee: fee@,
                cursor: cursor@,
            },
            Action::MeasureElapsed => ActionView::MeasureElapsed,
            Action::Sleep(span) => ActionView::Sleep(span@),
        }
    }
}

/// What the scheduler has to report about the event it was just given.
#[derive(Debug, PartialEq, Eq)]
pub enum Diagnostic {
    /// A relay operation failed, for the cause given. It is tried again in the
    /// next iteration.
    RelayFailed { stage: Stage, cause: String },
    /// The event relayer handed back a height below the cursor. The cursor
    /// kept its height.
    CursorRetreat { current: BlockHeight, attempted: BlockHeight },
}

impl View for Diagnostic {
    type V = DiagnosticView;

    open spec fn view(&self) -> DiagnosticView {
        match *self {
            Diagnostic::RelayFailed { stage, cause } => DiagnosticView::RelayFailed {
                stage,
                cause: cause@,
            },
            Diagnostic::CursorRetreat { current, attempted } => DiagnosticView::CursorRetreat {
                current: current@,
                attempted: attempted@,
            },
        }
    }
}

/// The scheduler's answer to one event.
#[derive(Debug, PartialEq, Eq)]
pub struct Step {
    /// What to do next.
    pub action: Action,
    /// What to write to the log, if anything.
    pub diagnostic: Option<Diagnostic>,
}

impl View for Step {
    type V = StepView;

    open spec fn view(&self) -> StepView {
        StepView {
            action: self.action@,
            diagnostic: match self.diagnostic {
                Some(d) => Some(d@),
                None => None,
            },
        }
    }
}

/// An event that the scheduler's phase does not wait for.
#[derive(Debug, PartialEq, Eq)]
pub struct UnexpectedEvent {
    /// The phase the scheduler was in, and still is.
    pub phase: Phase,
    /// The event, handed back.
    pub event: Event,
}

/// The relay scheduler. It owns the scan cursor and the fee policy.
#[derive(Debug)]
pub struct Scheduler {
    phase: Phase,
    cursor: Cursor,
    fee: FeePolicy,
    target: Span,
}

impl View for Scheduler {
    type V = SchedulerView;

    closed spec fn view(&self) -> SchedulerView {
        SchedulerView {
            phase: self.phase,
            cursor: self.cursor@,
            fee: self.fee@,
            target: self.target@,
        }
    }
}

/// The report for a relay operation that returned `outcome`.
fn report_failure(stage: Stage, outcome: Result<(), RelayError>) -> (d: Option<Diagnostic>)
    ensures
        outcome is Ok ==> d is None,
        outcome is Err ==> d is Some && d.unwrap()@ == (DiagnosticView::RelayFailed {
            stage,
            cause: outcome->Err_0@,
        }),
{
    match outcome {
        Ok(_) => None,
        Err(e) => Some(Diagnostic::RelayFailed { stage, cause: e.cause }),
    }
}

impl Scheduler {
    /// A scheduler between iterations, with the cursor at `start`, the fee
    /// paid in `pay_fees_in` and the usual target for one iteration.
    pub fn new(start: BlockHeight, pay_fees_in: String) -> (s: Scheduler)
        ensures
            s@.phase == Phase::Idle,
            s@.cursor == start@,
            s@.fee == FeePolicy::new_view(pay_fees_in@),
            s@.target == LOOP_SPEED_SECS * NANOS_PER_SEC,
    {
        Scheduler::with_target(start, pay_fees_in, loop_speed())
    }

    /// A scheduler between iterations, with the cursor at `start`, the fee
    /// paid in `pay_fees_in` and `target` as the length of one iteration.
    pub fn with_target(start: BlockHeight, pay_fees_in: String, target: Span) -> (s: Scheduler)
        ensures
            s@.phase == Phase::Idle,
            s@.cursor == start@,
            s@.fee == FeePolicy::new_view(pay_fees_in@),
            s@.target == target@,
    {
        Scheduler {
            phase: Phase::Idle,
            cursor: Cursor::new(start),
            fee: FeePolicy::new(pay_fees_in),
            target,
        }
    }

    /// The phase the scheduler is in.
    pub fn phase(&self) -> (p: Phase)
        ensures
            p == self@.phase,
    {
        self.phase
    }

    /// The height from which the next event scan starts.
    pub fn cursor(&self) -> (h: BlockHeight)
        ensures
            h@ == self@.cursor,
    {
        self.cursor.current()
    }

    /// The fee that every relay is paid with.
    pub fn fee(&self) -> (f: Fee)
        ensures
            f@ == self@.fee,
    {
        self.fee.current()
    }

    /// The target length of one iteration.
    pub fn target(&self) -> (t: Span)
        ensures
            t@ == self@.target,
    {
        self.target
    }

    /// Takes one event and says what to do next.
    ///
    /// The scheduler follows [`next`]: where the phase waits for the event, it
    /// moves to the state that `next` gives and answers with the step that
    /// `next` gives. Any other event is handed back and changes nothing.
    pub fn step(&mut self, event: Event) -> (r: Result<Step, UnexpectedEvent>)
        ensures
            match next(old(self)@, event@) {
                Some((state, step)) => r is Ok && r->Ok_0@ == step && final(self)@ == state,
                None => r is Err && r->Err_0.phase == old(self)@.phase && r->Err_0.event@
                    == event@ && final(self)@ == old(self)@,
            },
            final(self)@ == state_after(old(self)@, event@),
    {
        let phase = self.phase;
        match (phase, event) {
            (Phase::Idle, Event::Wake) => {
                self.phase = Phase::ProbingHeights;
                Ok(Step { action: Action::ProbeHeights, diagnostic: None })
            },
            (Phase::ProbingHeights, Event::HeightsProbed) => {
                self.phase = Phase::RelayingValsets;
                let action = Action::RelayValsets {
                    fee: self.fee.current(),
                    pacing_hint: self.target,
                };
                Ok(Step { action, diagnostic: None })
            },
            (Phase::RelayingValsets, Event::ValsetsRelayed(outcome)) => {
                self.phase = Phase::RelayingBatches;
                let action = Action::RelayBatches {
                    fee: self.fee.current(),
                    pacing_hint: self.target,
                };
                Ok(Step { action, diagnostic: report_failure(Stage::Valsets, outcome) })
            },
            (Phase::RelayingBatches, Event::BatchesRelayed(outcome)) => {
                self.phase = Phase::RelayingEvents;
                let action = Action::RelayEvents {
                    fee: self.fee.current(),
                    cursor: self.cursor.current(),
                };
                Ok(Step { action, diagnostic: report_failure(Stage::Batches, outcome) })
            },
            (Phase::RelayingEvents, Event::EventsRelayed(outcome)) => {
                self.phase = Phase::Pacing;
                let diagnostic = match outcome {
                    Ok(height) => match self.cursor.advance(height) {
                        Ok(_) => None,
                        Err(retreat) => Some(
                            Diagnostic::CursorRetreat {
                                current: retreat.current,
                                attempted: retreat.attempted,
                            },
                        ),
                    },
                    Err(e) => Some(Diagnostic::RelayFailed { stage: Stage::Events, cause: e.cause }),
                };
                Ok(Step { action: Action::MeasureElapsed, diagnostic })
            },
            (Phase::Pacing, Event::Elapsed(elapsed)) => {
                match time_to_rest(self.target, elapsed) {
                    Some(rest) => {
                        self.phase = Phase::Idle;
                        Ok(Step { action: Action::Sleep(rest), diagnostic: None })
                    },
                    None => {
                        self.phase = Phase::ProbingHeights;
                        Ok(Step { action: Action::ProbeHeights, diagnostic: None })
                    },
                }
            },
            (phase, event) => Err(UnexpectedEvent { phase, event }),
        }
    }
}

} // verus!
