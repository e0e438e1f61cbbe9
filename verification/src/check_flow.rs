use vstd::prelude::*;

verus! {

/// How a corridor check ended.
#[derive(Clone, Copy, Debug, PartialEq, Eq, Structural)]
pub enum CheckOutcome {
    /// Every corridor held and the shard was written.
    Written,
    /// The corridor bands or the geometry/material spec could not be loaded.
    LoadFailed,
    /// One or more corridors were violated: no corridor, no build.
    Rejected,
    /// The corridors held but the shard could not be written.
    WriteFailed,
}

/// The step a corridor check is at; each names the work the caller does next.
#[derive(Clone, Copy, Debug, PartialEq, Eq, Structural)]
pub enum CheckStage {
    /// Load the corridor bands (or take the compiled-in defaults).
    LoadBands,
    /// Load the CAD-exported geometry/material spec.
    LoadSpec,
    /// Evaluate the spec against the corridor bands.
    Evaluate,
    /// Draw a shard identity and write the shard.
    WriteShard,
    /// The check is over.
    Done(CheckOutcome),
}

/// What the caller reports back after doing the work a stage names.
#[derive(Clone, Copy, Debug, PartialEq, Eq, Structural)]
pub enum CheckEvent {
    BandsLoaded { ok: bool },
    SpecLoaded { ok: bool },
    Evaluated { accepted: bool },
    ShardWritten { ok: bool },
}

/// The stage that follows `stage` once `event` is reported. An event that
/// does not answer the current stage leaves the stage as it is.
pub open spec fn spec_next_stage(stage: CheckStage, event: CheckEvent) -> CheckStage {
    match (stage, event) {
        (CheckStage::LoadBands, CheckEvent::BandsLoaded { ok }) => if ok {
            CheckStage::LoadSpec
        } else {
            CheckStage::Done(CheckOutcome::LoadFailed)
        },
        (CheckStage::LoadSpec, CheckEvent::SpecLoaded { ok }) => if ok {
            CheckStage::Evaluate
        } else {
            CheckStage::Done(CheckOutcome::LoadFailed)
        },
        (CheckStage::Evaluate, CheckEvent::Evaluated { accepted }) => if accepted {
            CheckStage::WriteShard
        } else {
            CheckStage::Done(CheckOutcome::Rejected)
        },
        (CheckStage::WriteShard, CheckEvent::ShardWritten { ok }) => if ok {
            CheckStage::Done(CheckOutcome::Written)
        } else {
            CheckStage::Done(CheckOutcome::WriteFailed)
        },
        _ => stage,
    }
}

/// The process exit status for an outcome: 0 when the shard was written,
/// 2 when a corridor was violated, 1 for a load or write failure.
pub open spec fn spec_exit_code(outcome: CheckOutcome) -> i32 {
    match outcome {
        CheckOutcome::Written => 0,
        CheckOutcome::LoadFailed => 1,
        CheckOutcome::Rejected => 2,
        CheckOutcome::WriteFailed => 1,
    }
}

/// The stage reached from the start of a check after the given events.
pub open spec fn run(events: Seq<CheckEvent>) -> CheckStage
    decreases events.len(),
{
    if events.len() == 0 {
        CheckStage::LoadBands
    } else {
        spec_next_stage(run(events.drop_last()), events.last())
    }
}

/// Advances a corridor check by one reported event.
pub fn next_stage(stage: CheckStage, event: CheckEvent) -> (next: CheckStage)
    ensures
        next == spec_next_stage(stage, event),
{
    match (stage, event) {
        (CheckStage::LoadBands, CheckEvent::BandsLoaded { ok }) => if ok {
            CheckStage::LoadSpec
        } else {
            CheckStage::Done(CheckOutcome::LoadFailed)
        },
        (CheckStage::LoadSpec, CheckEvent::SpecLoaded { ok }) => if ok {
            CheckStage::Evaluate
        } else {
            CheckStage::Done(CheckOutcome::LoadFailed)
        },
        (CheckStage::Evaluate, CheckEvent::Evaluated { accepted }) => if accepted {
            CheckStage::WriteShard
        } else {
            CheckStage::Done(CheckOutcome::Rejected)
        },
        (CheckStage::WriteShard, CheckEvent::ShardWritten { ok }) => if ok {
            CheckStage::Done(CheckOutcome::Written)
        } else {
            CheckStage::Done(CheckOutcome::WriteFailed)
        },
        _ => stage,
    }
}

/// The process exit status for a finished check.
pub fn exit_code(outcome: CheckOutcome) -> (code: i32)
    ensures
        code == spec_exit_code(outcome),
{
    match outcome {
        CheckOutcome::Written => 0,
        CheckOutcome::LoadFailed => 1,
        CheckOutcome::Rejected => 2,
        CheckOutcome::WriteFailed => 1,
    }
}

/// No corridor, no build: a check only comes to write a shard, or ends with
/// a shard written, after an evaluation that accepted every corridor; and a
/// written shard also needs the bands and the spec to have loaded and the
/// write to have succeeded.
pub proof fn lemma_no_corridor_no_build(events: Seq<CheckEvent>)
    ensures
        run(events) == CheckStage::WriteShard || run(events) == CheckStage::Done(
            CheckOutcome::Written,
        ) ==> events.contains((CheckEvent::Evaluated { accepted: true })),
        run(events) == CheckStage::Done(CheckOutcome::Written) ==> {
            &&& events.contains((CheckEvent::BandsLoaded { ok: true }))
            &&& events.contains((CheckEvent::SpecLoaded { ok: true }))
            &&& events.contains((CheckEvent::ShardWritten { ok: true }))
        },
    decreases events.len(),
{
    if events.len() > 0 {
        let prev = events.drop_last();
        lemma_no_corridor_no_build(prev);
        lemma_stage_history(prev);
        lemma_contains_prefix(events);
        assert(events[events.len() - 1] == events.last());
    }
}

/// Whatever occurs in `events` without its last element occurs in `events`.
proof fn lemma_contains_prefix(events: Seq<CheckEvent>)
    requires
        events.len() > 0,
    ensures
        forall|e: CheckEvent| events.drop_last().contains(e) ==> #[trigger] events.contains(e),
{
    assert forall|e: CheckEvent| events.drop_last().contains(e) implies #[trigger] events.contains(
        e,
    ) by {
        let i = choose|i: int| 0 <= i < events.drop_last().len() && events.drop_last()[i] == e;
        assert(events[i] == e);
    }
}

/// Reaching evaluation or a later successful stage needs the bands and the
/// spec to have loaded.
proof fn lemma_stage_history(events: Seq<CheckEvent>)
    ensures
        run(events) == CheckStage::Evaluate || run(events) == CheckStage::WriteShard || run(events)
            == CheckStage::Done(CheckOutcome::Written) ==> {
            &&& events.contains((CheckEvent::BandsLoaded { ok: true }))
            &&& events.contains((CheckEvent::SpecLoaded { ok: true }))
        },
        run(events) == CheckStage::LoadSpec ==> events.contains((CheckEvent::BandsLoaded { ok: true })),
    decreases events.len(),
{
    if events.len() > 0 {
        let prev = events.drop_last();
        lemma_stage_history(prev);
        lemma_contains_prefix(events);
        assert(events[events.len() - 1] == events.last());
    }
}

/// A finished check stays finished with the same outcome, whatever is
/// reported afterwards.
pub proof fn lemma_done_is_final(events: Seq<CheckEvent>, later: Seq<CheckEvent>)
    requires
        (run(events) is Done),
    ensures
        run(events + later) == run(events),
    decreases later.len(),
{
    if later.len() == 0 {
        assert(events + later =~= events);
    } else {
        lemma_done_is_final(events, later.drop_last());
        assert((events + later).drop_last() =~= events + later.drop_last());
    }
}

} // verus!
