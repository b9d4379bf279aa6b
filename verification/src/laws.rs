//! What holds of the relay loop in every state and for every run of events.
use crate::fee::FeeView;
use crate::model::{
    accepts, in_phase, next, state_after, state_after_all, ActionView, EventView, Phase, SchedulerView,
};
use vstd::prelude::*;

verus! {

/// The fee that an action hands to a relayer, if it starts one.
pub open spec fn fee_of(action: ActionView) -> Option<FeeView> {
    match action {
        ActionView::RelayValsets { fee, .. } => Some(fee),
        ActionView::RelayBatches { fee, .. } => Some(fee),
        ActionView::RelayEvents { fee, .. } => Some(fee),
        _ => None,
    }
}

/// Whether the event at index `i` of `events`, run from `s`, is a successful
/// event relay that the loop waited for and that lifts the cursor to a higher
/// height.
pub open spec fn lifts_cursor_at(s: SchedulerView, events: Seq<EventView>, i: int) -> bool {
    &&& 0 <= i < events.len()
    &&& state_after_all(s, events.take(i)).phase == Phase::RelayingEvents
    &&& events[i] matches EventView::EventsRelayed(Ok(height))
    &&& height > state_after_all(s, events.take(i)).cursor
    &&& state_after_all(s, events.take(i + 1)).cursor == height
}

/// A failing relayer keeps no other from running. Once the validator-set
/// relayer has returned, with success or with any failure, the loop asks for
/// the batch relayer; once that has returned, with success or with any
/// failure, the loop asks for the event relayer, from the cursor as it stood.
/// Each is paid with the configured fee.
pub proof fn law_relay_failures_are_isolated(
    s: SchedulerView,
    valsets: Result<(), Seq<char>>,
    batches: Result<(), Seq<char>>,
)
    requires
        s.phase == Phase::RelayingValsets,
    ensures
        next(s, EventView::ValsetsRelayed(valsets)) is Some,
        ({
            let (after_valsets, asked) = next(s, EventView::ValsetsRelayed(valsets)).unwrap();
            &&& asked.action == (ActionView::RelayBatches { fee: s.fee, pacing_hint: s.target })
            &&& next(after_valsets, EventView::BatchesRelayed(batches)) is Some
            &&& next(after_valsets, EventView::BatchesRelayed(batches)).unwrap().1.action == (
            ActionView::RelayEvents { fee: s.fee, cursor: s.cursor })
            &&& next(after_valsets, EventView::BatchesRelayed(batches)).unwrap().0 == in_phase(
                s,
                Phase::RelayingEvents,
            )
        }),
{
}

/// An iteration never ends early. From the start of an iteration, whatever the
/// three relayers return, the loop accepts each report in turn and arrives at
/// the pacing phase, having asked for the validator-set relayer, the batch
/// relayer and the event relayer in that order.
pub proof fn law_iteration_runs_every_relay(
    s: SchedulerView,
    valsets: Result<(), Seq<char>>,
    batches: Result<(), Seq<char>>,
    events: Result<nat, Seq<char>>,
)
    requires
        s.phase == Phase::ProbingHeights,
    ensures
        ({
            let probed = next(s, EventView::HeightsProbed);
            let valsets_done = next(probed.unwrap().0, EventView::ValsetsRelayed(valsets));
            let batches_done = next(valsets_done.unwrap().0, EventView::BatchesRelayed(batches));
            let events_done = next(batches_done.unwrap().0, EventView::EventsRelayed(events));
            &&& probed is Some
            &&& valsets_done is Some
            &&& batches_done is Some
            &&& events_done is Some
            &&& probed.unwrap().1.action is RelayValsets
            &&& valsets_done.unwrap().1.action is RelayBatches
            &&& batches_done.unwrap().1.action is RelayEvents
            &&& events_done.unwrap().1.action is MeasureElapsed
            &&& events_done.unwrap().0.phase == Phase::Pacing
        }),
{
}

/// One event never lowers the cursor, and lifts it only where it is a
/// successful event relay that the loop waited for. The cursor then stands at
/// the height that the relayer handed back.
pub proof fn law_step_moves_cursor_on_success_only(s: SchedulerView, e: EventView)
    ensures
        state_after(s, e).cursor >= s.cursor,
        state_after(s, e).cursor != s.cursor ==> s.phase == Phase::RelayingEvents
            && e == EventView::EventsRelayed(Ok(state_after(s, e).cursor)),
{
}

/// A failed event relay leaves the cursor where it was, so that the next
/// iteration scans the same range again.
pub proof fn law_failed_scan_is_repeated(s: SchedulerView, cause: Seq<char>)
    requires
        s.phase == Phase::RelayingEvents,
    ensures
        state_after(s, EventView::EventsRelayed(Err(cause))).cursor == s.cursor,
        state_after(s, EventView::EventsRelayed(Err(cause))).phase == Phase::Pacing,
{
}

/// Over any run of events the cursor never retreats.
pub proof fn law_cursor_never_retreats(s: SchedulerView, events: Seq<EventView>)
    ensures
        state_after_all(s, events).cursor >= s.cursor,
    decreases events.len(),
{
    if events.len() > 0 {
        law_cursor_never_retreats(s, events.drop_last());
    }
}

/// Over any run of events the cursor moves only on success: where it ends
/// above its start, the run holds a successful event relay that the loop
/// waited for and that lifted it.
pub proof fn law_cursor_moves_only_on_success(s: SchedulerView, events: Seq<EventView>)
    ensures
        state_after_all(s, events).cursor != s.cursor ==> exists|i: int|
            lifts_cursor_at(s, events, i),
    decreases events.len(),
{
    if events.len() > 0 {
        let prefix = events.drop_last();
        let before_last = state_after_all(s, prefix);
        law_cursor_moves_only_on_success(s, prefix);
        if before_last.cursor != s.cursor {
            let i = choose|i: int| lifts_cursor_at(s, prefix, i);
            assert(prefix.take(i) =~= events.take(i));
            assert(prefix.take(i + 1) =~= events.take(i + 1));
            assert(lifts_cursor_at(s, events, i));
        } else if state_after_all(s, events).cursor != s.cursor {
            let i = events.len() - 1;
            assert(events.take(i) =~= prefix);
            assert(events.take(i + 1) =~= events);
            law_cursor_never_retreats(s, prefix);
            assert(lifts_cursor_at(s, events, i));
        }
    }
}

/// An iteration that stayed under the target is followed by a rest of exactly
/// what is left of the target: the time it took and the rest add up to the
/// target. The loop is idle meanwhile, and the end of the rest is the one event
/// it waits for: the next iteration begins with it.
pub proof fn law_short_iteration_rests_the_remainder(s: SchedulerView, elapsed: nat)
    requires
        s.phase == Phase::Pacing,
        elapsed < s.target,
    ensures
        next(s, EventView::Elapsed(elapsed)) is Some,
        next(s, EventView::Elapsed(elapsed)).unwrap().0 == in_phase(s, Phase::Idle),
        next(s, EventView::Elapsed(elapsed)).unwrap().1.action == ActionView::Sleep(
            (s.target - elapsed) as nat,
        ),
        forall|e: EventView| accepts(in_phase(s, Phase::Idle), e) <==> e == EventView::Wake,
        next(in_phase(s, Phase::Idle), EventView::Wake).unwrap().1.action
            == ActionView::ProbeHeights,
{
}

/// An iteration that met or passed the target is followed by no rest: the next
/// iteration begins at once.
pub proof fn law_long_iteration_does_not_rest(s: SchedulerView, elapsed: nat)
    requires
        s.phase == Phase::Pacing,
        elapsed >= s.target,
    ensures
        next(s, EventView::Elapsed(elapsed)) is Some,
        next(s, EventView::Elapsed(elapsed)).unwrap().0 == in_phase(s, Phase::ProbingHeights),
        next(s, EventView::Elapsed(elapsed)).unwrap().1.action == ActionView::ProbeHeights,
{
}

/// The loop has no last state: whatever state it is in, there is an event that
/// it waits for.
pub proof fn law_no_state_is_final(s: SchedulerView)
    ensures
        exists|e: EventView| accepts(s, e),
{
    match s.phase {
        Phase::Idle => assert(accepts(s, EventView::Wake)),
        Phase::ProbingHeights => assert(accepts(s, EventView::HeightsProbed)),
        Phase::RelayingValsets => assert(accepts(s, EventView::ValsetsRelayed(Ok(())))),
        Phase::RelayingBatches => assert(accepts(s, EventView::BatchesRelayed(Ok(())))),
        Phase::RelayingEvents => assert(accepts(s, EventView::EventsRelayed(Ok(s.cursor)))),
        Phase::Pacing => assert(accepts(s, EventView::Elapsed(0))),
    }
}

/// No event changes the fee or the target, and a relayer is never started with
/// another fee than the configured one.
pub proof fn law_step_keeps_fee(s: SchedulerView, e: EventView)
    ensures
        state_after(s, e).fee == s.fee,
        state_after(s, e).target == s.target,
        next(s, e) is Some && fee_of(next(s, e).unwrap().1.action) is Some ==> fee_of(
            next(s, e).unwrap().1.action,
        ) == Some(s.fee),
{
}

/// Over any run of events the fee and the target stay as configured, and
/// whatever relayer the loop starts after the run is paid with that fee.
pub proof fn law_fee_is_fixed(s: SchedulerView, events: Seq<EventView>, e: EventView)
    ensures
        state_after_all(s, events).fee == s.fee,
        state_after_all(s, events).target == s.target,
        next(state_after_all(s, events), e) is Some && fee_of(
            next(state_after_all(s, events), e).unwrap().1.action,
        ) is Some ==> fee_of(next(state_after_all(s, events), e).unwrap().1.action) == Some(
            s.fee,
        ),
    decreases events.len(),
{
    if events.len() > 0 {
        law_fee_is_fixed(s, events.drop_last(), events.last());
        law_step_keeps_fee(state_after_all(s, events.drop_last()), events.last());
    }
    law_step_keeps_fee(state_after_all(s, events), e);
}

} // verus!
