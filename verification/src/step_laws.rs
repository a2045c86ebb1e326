//! What the steps of recording, rolling back and resimulating are for: how what a step returns
//! and leaves behind hangs together with what it was given, and with what other calls say.

use bevy::ecs::entity::Entity;
use vstd::prelude::*;
use vstd::std_specs::cmp::PartialEqSpec;

use crate::clock::{DespawnMarker, GameClock, TimewarpConfig};
use crate::frame_buffer::{lemma_newest_exists, FrameBuffer, Frames};
use crate::history_laws::{lemma_death_ends_the_last_life, lived_before};
use crate::laws::{
    law_alive_from_birth, law_insert_moves_newest_frame, law_perfect_simulation_changes_nothing,
    law_recorded_run_is_held, lemma_recorded_run, record_run, simulated,
};
use crate::requests::{pending, sent, RollbackRequests};
use crate::systems::{
    add_frame_to_freshly_added_despawn_markers, add_timewarp_buffer_components,
    apply_snapshots_and_rollback_for_non_anachronous, apply_snapshots_and_snap_for_anachronous,
    check_for_rollback_completion, do_actual_despawn_after_rollback_frames_from_despawn_marker,
    insert_components_at_prior_frames, record_component_added_to_alive_ranges,
    record_component_history_values, record_component_removed_to_alive_ranges,
    reinsert_components_removed_during_rollback_at_correct_frame,
    remove_components_from_entities_with_freshly_added_despawn_markers,
    reremove_components_inserted_during_rollback_at_correct_frame, rollback_initiated,
    rollback_initiated_for_component,
    trigger_rollbacks_for_anachronous_entities_when_snapshots_arrive, Restoration,
};
use crate::timewarp::{
    Anachronous, ComponentHistory, History, InsertComponentAtFrame, Period, PreviousRollback,
    Rollback, RollbackStats, ServerSnapshot, TimewarpCorrection,
};
use crate::FrameNumber;

verus! {

/// What a history is after `vals` were recorded in it one after the other, from frame `start` on.
pub open spec fn recorded_history<T>(
    history: History<T>,
    start: FrameNumber,
    vals: Seq<T>,
) -> History<T>
    decreases vals.len(),
{
    if vals.len() == 0 {
        history
    } else {
        recorded_history(history, start, vals.drop_last()).insert(
            (start + vals.len() - 1) as FrameNumber,
            vals.last(),
        )
    }
}

proof fn lemma_recorded_history<T>(history: History<T>, start: FrameNumber, vals: Seq<T>)
    ensures
        recorded_history(history, start, vals) == (History {
            frames: record_run(history.frames, start, vals),
            ..history
        }),
    decreases vals.len(),
{
    if vals.len() > 0 {
        lemma_recorded_history(history, start, vals.drop_last());
    }
}

proof fn lemma_run_keeps_earlier_frame<T>(
    frames: Frames<T>,
    start: FrameNumber,
    vals: Seq<T>,
    frame: FrameNumber,
)
    requires
        frames.accepts(start),
        frame < start,
        start + vals.len() <= FrameNumber::MAX + 1,
        start + vals.len() - frame <= frames.capacity,
    ensures
        record_run(frames, start, vals).get(frame) == frames.get(frame),
    decreases vals.len(),
{
    if vals.len() > 0 {
        lemma_run_keeps_earlier_frame(frames, start, vals.drop_last(), frame);
        lemma_recorded_run(frames, start, vals.drop_last());
    }
}

/// What was recorded last at each frame is what the history holds there, until `capacity` more
/// frames were recorded. It makes no difference whether the frames had values before, as they
/// have when they are simulated again, or whether corrections are logged.
pub proof fn law_recorded_history_is_held<T>(
    history: History<T>,
    start: FrameNumber,
    vals: Seq<T>,
    frame: FrameNumber,
)
    requires
        history.frames.accepts(start),
        start <= frame < start + vals.len() <= FrameNumber::MAX + 1,
    ensures
        recorded_history(history, start, vals).at(frame) == if start + vals.len() - frame
            <= history.frames.capacity {
            Some(vals[frame - start])
        } else {
            None
        },
        recorded_history(history, start, vals).alive_at(frame) == history.alive_at(frame),
{
    lemma_recorded_history(history, start, vals);
    law_recorded_run_is_held(history.frames, start, vals, frame);
}

/// A rollback to a frame that was recorded, and is in the window, brings back what was recorded
/// there last: it is assigned to a component that the entity has, and inserted where it has none.
pub proof fn law_rollback_brings_back_what_was_recorded<T: Clone>(
    before: History<T>,
    start: FrameNumber,
    vals: Seq<T>,
    rb: &Rollback,
    opt_comp: Option<&T>,
    history: &ComponentHistory<T>,
    restoration: Restoration<T>,
)
    requires
        before.frames.accepts(start),
        start <= rb.range.start < start + vals.len() <= FrameNumber::MAX + 1,
        start + vals.len() - rb.range.start <= before.frames.capacity,
        before.alive_at(rb.range.start),
        history@ == recorded_history(before, start, vals),
        call_ensures(
            rollback_initiated_for_component::<T>,
            (rb, opt_comp, history, None),
            restoration,
        ),
    ensures
        opt_comp is Some ==> (restoration matches Restoration::Assign(val) && cloned(
            vals[rb.range.start - start],
            val,
        )),
        opt_comp is None ==> (restoration matches Restoration::Insert(val) && cloned(
            vals[rb.range.start - start],
            val,
        )),
{
    law_recorded_history_is_held(before, start, vals, rb.range.start);
}

/// A perfect simulation that starts again from any frame of the past, and records up to the
/// present, leaves the history as it was.
pub proof fn law_perfect_resimulation_leaves_history<T>(
    history: History<T>,
    step: spec_fn(T) -> T,
    start: FrameNumber,
    count: nat,
    target: FrameNumber,
)
    requires
        history.frames.valid(),
        start <= target < start + count <= FrameNumber::MAX + 1,
        forall|i: nat|
            i < count ==> history.at((start + i) as FrameNumber) == Some(
                #[trigger] simulated(step, history.frames.values[start], i),
            ),
    ensures
        recorded_history(
            history,
            target,
            Seq::new(
                (start + count - target) as nat,
                |i: int| simulated(step, history.frames.values[target], i as nat),
            ),
        ) == history,
{
    let vals = Seq::new(
        (start + count - target) as nat,
        |i: int| simulated(step, history.frames.values[target], i as nat),
    );
    assert forall|i: nat| i < count implies history.frames.get((start + i) as FrameNumber) == Some(
        #[trigger] simulated(step, history.frames.values[start], i),
    ) by {
        assert(history.at((start + i) as FrameNumber) == Some(
            simulated(step, history.frames.values[start], i),
        ));
    }
    law_perfect_simulation_changes_nothing(history.frames, step, start, count, target);
    lemma_recorded_history(history, target, vals);
}

/// A component that was added gets a history over the whole rollback window, alive from now on,
/// with its value at this frame and at no other, and a snapshot buffer sixty windows long without
/// a value.
pub proof fn law_added_component_has_buffers<T: Clone, const CORRECTION_LOGGING: bool>(
    e: &Entity,
    comp: &T,
    clock: &GameClock,
    config: &TimewarpConfig,
    buffers: (ComponentHistory<T>, ServerSnapshot<T>),
    now: FrameNumber,
    frame: FrameNumber,
    alive: bool,
    value: Option<&T>,
    snapshot: Option<&T>,
)
    requires
        call_ensures(GameClock::frame, (clock,), now),
        call_ensures(
            add_timewarp_buffer_components::<T, CORRECTION_LOGGING>,
            (e, comp, clock, config),
            buffers,
        ),
        call_ensures(ComponentHistory::<T>::alive_at_frame, (&buffers.0, frame), alive),
        call_ensures(ComponentHistory::<T>::at_frame, (&buffers.0, frame), value),
        call_ensures(ServerSnapshot::<T>::at_frame, (&buffers.1, frame), snapshot),
    ensures
        buffers.0.values@.capacity == config.rollback_window,
        alive <==> now <= frame,
        value is Some <==> frame == now && config.rollback_window > 0,
        value is Some ==> cloned(*comp, *value->0),
        buffers.0.correction_logging_enabled == CORRECTION_LOGGING,
        buffers.0.alive_ranges@.len() == 1,
        buffers.0.diff_at_frame is None,
        buffers.0.most_recent_authoritative_frame == 0,
        buffers.1.values@.capacity == 60 * config.rollback_window,
        snapshot is None,
{
    let life = (now, None::<FrameNumber>);
    assert(buffers.0@.alive_ranges =~= seq![life]);
    assert(buffers.0@.alive_ranges[0] == life);
}

/// A component that was added at a frame can be gone back to from anywhere in the rollback
/// window: however its values were recorded in the frames since, a rollback to the frame brings
/// back the value that it was added with.
pub proof fn law_added_component_can_be_gone_back_to<T: Clone, const CORRECTION_LOGGING: bool>(
    e: &Entity,
    comp: &T,
    clock: &GameClock,
    config: &TimewarpConfig,
    buffers: (ComponentHistory<T>, ServerSnapshot<T>),
    now: FrameNumber,
    vals: Seq<T>,
    history: &ComponentHistory<T>,
    rb: &Rollback,
    opt_comp: Option<&T>,
    restoration: Restoration<T>,
)
    requires
        call_ensures(GameClock::frame, (clock,), now),
        call_ensures(
            add_timewarp_buffer_components::<T, CORRECTION_LOGGING>,
            (e, comp, clock, config),
            buffers,
        ),
        vals.len() < config.rollback_window,
        now + vals.len() < FrameNumber::MAX,
        history@ == recorded_history(buffers.0@, (now + 1) as FrameNumber, vals),
        rb.range.start == now,
        call_ensures(
            rollback_initiated_for_component::<T>,
            (rb, opt_comp, history, None),
            restoration,
        ),
    ensures
        history@.at(now) is Some,
        cloned(*comp, history@.at(now)->0),
        opt_comp is Some ==> (restoration matches Restoration::Assign(val) && cloned(
            history@.at(now)->0,
            val,
        )),
        opt_comp is None ==> (restoration matches Restoration::Insert(val) && cloned(
            history@.at(now)->0,
            val,
        )),
{
    let life = (now, None::<FrameNumber>);
    assert(buffers.0@.alive_ranges =~= seq![life]);
    assert(buffers.0@.alive_ranges[0] == life);
    let next = (now + 1) as FrameNumber;
    lemma_recorded_history(buffers.0@, next, vals);
    lemma_run_keeps_earlier_frame(buffers.0@.frames, next, vals, now);
}

/// A rollback to before a component was added takes it away again: it is removed from an entity
/// that has it, and an entity without it stays without, whatever was recorded since.
pub proof fn law_component_is_removed_before_it_was_added<
    T: Clone,
    const CORRECTION_LOGGING: bool,
>(
    e: &Entity,
    comp: &T,
    clock: &GameClock,
    config: &TimewarpConfig,
    buffers: (ComponentHistory<T>, ServerSnapshot<T>),
    now: FrameNumber,
    history: &ComponentHistory<T>,
    rb: &Rollback,
    opt_comp: Option<&T>,
    restoration: Restoration<T>,
)
    requires
        call_ensures(GameClock::frame, (clock,), now),
        call_ensures(
            add_timewarp_buffer_components::<T, CORRECTION_LOGGING>,
            (e, comp, clock, config),
            buffers,
        ),
        history.alive_ranges@ == buffers.0.alive_ranges@,
        rb.range.start < now,
        call_ensures(
            rollback_initiated_for_component::<T>,
            (rb, opt_comp, history, None),
            restoration,
        ),
    ensures
        opt_comp is Some ==> restoration is Remove,
        opt_comp is None ==> restoration is Dead,
{
    let life = (now, None::<FrameNumber>);
    assert(buffers.0@.alive_ranges =~= seq![life]);
}

/// On the first frame of a rollback a component becomes what is remembered of it. The frame to
/// remember is the start of the rollback, or for a held-back entity as many frames before it as
/// the entity is held back. A component that was not alive there is gone afterwards. One that was
/// gets the value recorded there, by assignment where the entity has it and by insertion where it
/// has not; without a record it is left alone.
pub proof fn law_component_becomes_what_is_remembered<T: Clone>(
    rb: &Rollback,
    opt_comp: Option<&T>,
    history: &ComponentHistory<T>,
    opt_anach: Option<&Anachronous>,
    target: FrameNumber,
    alive: bool,
    recorded: Option<&T>,
    restoration: Restoration<T>,
)
    requires
        opt_anach is None ==> target == rb.range.start,
        opt_anach is Some && opt_anach->0@.frames_behind <= rb.range.start ==> target
            + opt_anach->0@.frames_behind == rb.range.start,
        opt_anach is Some && opt_anach->0@.frames_behind > rb.range.start ==> target == 0,
        call_ensures(ComponentHistory::<T>::alive_at_frame, (history, target), alive),
        call_ensures(ComponentHistory::<T>::at_frame, (history, target), recorded),
        call_ensures(
            rollback_initiated_for_component::<T>,
            (rb, opt_comp, history, opt_anach),
            restoration,
        ),
    ensures
        restoration is Remove <==> !alive && opt_comp is Some,
        restoration is Dead <==> !alive && opt_comp is None,
        restoration is Assign <==> alive && recorded is Some && opt_comp is Some,
        restoration is Insert <==> alive && recorded is Some && opt_comp is None,
        restoration is NotRecorded <==> alive && recorded is None,
        restoration matches Restoration::Assign(val) ==> cloned(*recorded->0, val),
        restoration matches Restoration::Insert(val) ==> cloned(*recorded->0, val),
        restoration.value() is Some <==> restoration is Assign || restoration is Insert,
{
}

/// A component that an entity gets again is alive from now on, besides when it was alive before.
/// What is added during a rollback is no birth. The values stay as they are.
pub proof fn law_component_added_again_is_born<T>(
    history: &mut ComponentHistory<T>,
    clock: &GameClock,
    now: FrameNumber,
    rb: Option<&Rollback>,
    frame: FrameNumber,
    before: bool,
    after: bool,
)
    requires
        call_ensures(GameClock::frame, (clock,), now),
        call_ensures(ComponentHistory::<T>::alive_at_frame, (&*old(history), frame), before),
        call_ensures(record_component_added_to_alive_ranges::<T>, (history, clock, rb), ()),
        call_ensures(ComponentHistory::<T>::alive_at_frame, (&*final(history), frame), after),
    ensures
        rb is None ==> (after <==> before || now <= frame),
        rb is None ==> final(history).alive_ranges@ == old(history).alive_ranges@.push(
            (now, None),
        ),
        rb is Some ==> after == before,
        rb is Some ==> final(history).alive_ranges@ == old(history).alive_ranges@,
        final(history).values@ == old(history).values@,
        final(history).diff_at_frame == old(history).diff_at_frame,
        final(history).correction_logging_enabled == old(history).correction_logging_enabled,
        final(history).most_recent_authoritative_frame == old(
            history,
        ).most_recent_authoritative_frame,
{
    law_alive_from_birth(old(history)@, now, frame);
}

/// To record a component puts its value at the current frame, in place of what was there. The
/// other frames of the window keep their values, and the lives of the component stay as they are.
/// A comparison that was due is not due any more.
pub proof fn law_current_value_is_recorded<T: Clone + PartialEq>(
    entity: &Entity,
    comp: &T,
    history: &mut ComponentHistory<T>,
    clock: &GameClock,
    now: FrameNumber,
    correction: Option<TimewarpCorrection<T>>,
    other: FrameNumber,
    before: Option<&T>,
    after: Option<&T>,
)
    requires
        call_ensures(GameClock::frame, (clock,), now),
        call_ensures(ComponentHistory::<T>::at_frame, (&*old(history), other), before),
        call_ensures(
            record_component_history_values::<T>,
            (entity, comp, history, clock),
            correction,
        ),
        call_ensures(ComponentHistory::<T>::at_frame, (&*final(history), other), after),
    ensures
        old(history).values@.accepts(now) && other == now ==> after is Some && cloned(
            *comp,
            *after->0,
        ),
        old(history).values@.accepts(now) && other != now ==> after == if now - other < old(
            history,
        ).values@.capacity {
            before
        } else {
            None
        },
        !old(history).values@.accepts(now) ==> after == before,
        final(history).values@.capacity == old(history).values@.capacity,
        final(history).alive_ranges@ == old(history).alive_ranges@,
        final(history).correction_logging_enabled == old(history).correction_logging_enabled,
        final(history).most_recent_authoritative_frame == old(
            history,
        ).most_recent_authoritative_frame,
        final(history).diff_at_frame == if old(history).correction_logging_enabled && old(
            history,
        ).diff_at_frame == Some(now) {
            None
        } else {
            old(history).diff_at_frame
        },
{
}

/// A correction comes exactly when one is logged and due at this frame and the value recorded
/// before is not equal to the new one. It has them both.
pub proof fn law_correction_shows_what_snapped<T: Clone + PartialEq>(
    entity: &Entity,
    comp: &T,
    history: &mut ComponentHistory<T>,
    clock: &GameClock,
    now: FrameNumber,
    correction: Option<TimewarpCorrection<T>>,
    predicted: Option<&T>,
)
    requires
        call_ensures(GameClock::frame, (clock,), now),
        call_ensures(ComponentHistory::<T>::at_frame, (&*old(history), now), predicted),
        old(history).correction_logging_enabled && old(history).diff_at_frame == Some(now)
            ==> predicted is Some,
        call_ensures(
            record_component_history_values::<T>,
            (entity, comp, history, clock),
            correction,
        ),
    ensures
        ({
            let due = old(history).correction_logging_enabled && old(history).diff_at_frame
                == Some(now);
            &&& !due ==> correction is None
            &&& due && correction is None ==> call_ensures(T::eq, (predicted->0, comp), true)
            &&& correction is Some ==> {
                &&& call_ensures(T::eq, (predicted->0, comp), false)
                &&& cloned(*predicted->0, correction->0.before)
                &&& cloned(*comp, correction->0.after)
                &&& correction->0.frame == now
            }
            &&& T::obeys_eq_spec() ==> (correction is Some <==> due && !predicted->0.eq_spec(comp))
        }),
{
}

/// When a frame is recorded twice, it is the second value that is read, and a correction was due
/// the first time only.
pub proof fn law_frame_recorded_again_is_replaced<T: Clone + PartialEq>(
    entity: &Entity,
    first: &T,
    second: &T,
    history: &mut ComponentHistory<T>,
    again: &mut ComponentHistory<T>,
    clock: &GameClock,
    now: FrameNumber,
    correction: Option<TimewarpCorrection<T>>,
    other_correction: Option<TimewarpCorrection<T>>,
    value: Option<&T>,
)
    requires
        call_ensures(GameClock::frame, (clock,), now),
        old(history).values@.accepts(now),
        call_ensures(
            record_component_history_values::<T>,
            (entity, first, history, clock),
            correction,
        ),
        *final(history) == *old(again),
        call_ensures(
            record_component_history_values::<T>,
            (entity, second, again, clock),
            other_correction,
        ),
        call_ensures(ComponentHistory::<T>::at_frame, (&*final(again), now), value),
    ensures
        value is Some,
        cloned(*second, *value->0),
        other_correction is None,
{
    let frames = old(history).values@;
    let held = old(again).values@;
    assert forall|frame: FrameNumber| #[trigger] held.values.contains_key(frame) implies frame - now
        < held.capacity by {
        assert(frame == now || frames.values.contains_key(frame));
    }
    assert(held.accepts(now));
}

/// An insertion into the past of a component that has a history: the value is read at its frame,
/// the component is alive from there on, besides when it was alive before, and a rollback to the
/// frame is asked for.
pub proof fn law_insertion_goes_into_history<T: Clone>(
    entity: &Entity,
    icaf: &InsertComponentAtFrame<T>,
    history: &mut ComponentHistory<T>,
    opt_ss: Option<&mut ServerSnapshot<T>>,
    config: &TimewarpConfig,
    queue: &mut RollbackRequests,
    buffers: (Option<ComponentHistory<T>>, Option<ServerSnapshot<T>>),
    frame: FrameNumber,
    before: Option<&T>,
    after: Option<&T>,
    alive_before: bool,
    alive_after: bool,
)
    requires
        call_ensures(ComponentHistory::<T>::at_frame, (&*old(history), frame), before),
        call_ensures(ComponentHistory::<T>::alive_at_frame, (&*old(history), frame), alive_before),
        call_ensures(
            insert_components_at_prior_frames::<T>,
            (entity, icaf, Some(history), opt_ss, config, queue),
            buffers,
        ),
        call_ensures(ComponentHistory::<T>::at_frame, (&*final(history), frame), after),
        call_ensures(ComponentHistory::<T>::alive_at_frame, (&*final(history), frame), alive_after),
    ensures
        buffers.0 is None,
        buffers.1 is None <==> opt_ss is Some,
        old(history).values@.accepts(icaf.frame) && frame == icaf.frame ==> after is Some && cloned(
            icaf.component,
            *after->0,
        ),
        old(history).values@.accepts(icaf.frame) && frame != icaf.frame ==> after == if icaf.frame
            - frame < old(history).values@.capacity {
            before
        } else {
            None
        },
        !old(history).values@.accepts(icaf.frame) ==> after == before,
        alive_after <==> alive_before || icaf.frame <= frame,
        final(history).alive_ranges@ == old(history).alive_ranges@.push((icaf.frame, None)),
        final(history).values@.capacity == old(history).values@.capacity,
        final(history).most_recent_authoritative_frame == icaf.frame,
        final(history).diff_at_frame == old(history).diff_at_frame,
        final(history).correction_logging_enabled == old(history).correction_logging_enabled,
        pending(*final(queue)) == pending(*old(queue)).push(icaf.frame),
        sent(*final(queue)) == sent(*old(queue)) + 1,
{
    let val = choose|val: T|
        {
            &&& #[trigger] cloned(icaf.component, val)
            &&& final(history)@ == old(history)@.insert_authoritative(icaf.frame, val).report_birth(
                icaf.frame,
            )
        };
    law_alive_from_birth(
        old(history)@.insert_authoritative(icaf.frame, val),
        icaf.frame,
        frame,
    );
}

/// An insertion into the past of a component that the entity never had: it gets a history over
/// the rollback window, with the value at its frame and at no other, alive from there on.
pub proof fn law_insertion_makes_history<T: Clone>(
    entity: &Entity,
    icaf: &InsertComponentAtFrame<T>,
    opt_ss: Option<&mut ServerSnapshot<T>>,
    config: &TimewarpConfig,
    queue: &mut RollbackRequests,
    buffers: (Option<ComponentHistory<T>>, Option<ServerSnapshot<T>>),
    frame: FrameNumber,
    value: Option<&T>,
    alive: bool,
)
    requires
        call_ensures(
            insert_components_at_prior_frames::<T>,
            (entity, icaf, None, opt_ss, config, queue),
            buffers,
        ),
        call_ensures(ComponentHistory::<T>::at_frame, (&buffers.0->0, frame), value),
        call_ensures(ComponentHistory::<T>::alive_at_frame, (&buffers.0->0, frame), alive),
    ensures
        buffers.0 is Some,
        buffers.1 is None <==> opt_ss is Some,
        buffers.0->0.values@.capacity == config.rollback_window,
        value is Some <==> frame == icaf.frame && config.rollback_window > 0,
        value is Some ==> cloned(icaf.component, *value->0),
        alive <==> icaf.frame <= frame,
        buffers.0->0.most_recent_authoritative_frame == icaf.frame,
        buffers.0->0.alive_ranges@.len() == 1,
        buffers.0->0.diff_at_frame is None,
        !buffers.0->0.correction_logging_enabled,
        pending(*final(queue)) == pending(*old(queue)).push(icaf.frame),
        sent(*final(queue)) == sent(*old(queue)) + 1,
{
    let history = buffers.0->0;
    let life = (icaf.frame, None::<FrameNumber>);
    assert(history@.alive_ranges =~= seq![life]);
    assert(history@.alive_ranges[0] == life);
}

/// The inserted value goes into the snapshots of the entity as well.
pub proof fn law_insertion_goes_into_snapshots<T: Clone>(
    entity: &Entity,
    icaf: &InsertComponentAtFrame<T>,
    opt_ch: Option<&mut ComponentHistory<T>>,
    snapshots: &mut ServerSnapshot<T>,
    config: &TimewarpConfig,
    queue: &mut RollbackRequests,
    buffers: (Option<ComponentHistory<T>>, Option<ServerSnapshot<T>>),
    frame: FrameNumber,
    before: Option<&T>,
    after: Option<&T>,
)
    requires
        call_ensures(ServerSnapshot::<T>::at_frame, (&*old(snapshots), frame), before),
        call_ensures(
            insert_components_at_prior_frames::<T>,
            (entity, icaf, opt_ch, Some(snapshots), config, queue),
            buffers,
        ),
        call_ensures(ServerSnapshot::<T>::at_frame, (&*final(snapshots), frame), after),
    ensures
        buffers.1 is None,
        buffers.0 is None <==> opt_ch is Some,
        old(snapshots).values@.accepts(icaf.frame) && frame == icaf.frame ==> after is Some
            && cloned(icaf.component, *after->0),
        old(snapshots).values@.accepts(icaf.frame) && frame != icaf.frame ==> after == if icaf.frame
            - frame < old(snapshots).values@.capacity {
            before
        } else {
            None
        },
        !old(snapshots).values@.accepts(icaf.frame) ==> after == before,
        final(snapshots).values@.capacity == old(snapshots).values@.capacity,
        pending(*final(queue)) == pending(*old(queue)).push(icaf.frame),
{
}

/// Where there are no snapshots yet, they are made sixty windows long, with the inserted value.
pub proof fn law_insertion_makes_snapshots<T: Clone>(
    entity: &Entity,
    icaf: &InsertComponentAtFrame<T>,
    opt_ch: Option<&mut ComponentHistory<T>>,
    config: &TimewarpConfig,
    queue: &mut RollbackRequests,
    buffers: (Option<ComponentHistory<T>>, Option<ServerSnapshot<T>>),
    frame: FrameNumber,
    value: Option<&T>,
)
    requires
        call_ensures(
            insert_components_at_prior_frames::<T>,
            (entity, icaf, opt_ch, None, config, queue),
            buffers,
        ),
        call_ensures(ServerSnapshot::<T>::at_frame, (&buffers.1->0, frame), value),
    ensures
        buffers.1 is Some,
        buffers.0 is None <==> opt_ch is Some,
        buffers.1->0.values@.capacity == 60 * config.rollback_window,
        value is Some <==> frame == icaf.frame && config.rollback_window > 0,
        value is Some ==> cloned(icaf.component, *value->0),
        pending(*final(queue)) == pending(*old(queue)).push(icaf.frame),
{
}

/// A component inserted into the past comes into being by a rollback to that frame, in an entity
/// that never had it.
pub proof fn law_inserted_component_comes_into_being<T: Clone>(
    entity: &Entity,
    icaf: &InsertComponentAtFrame<T>,
    opt_ss: Option<&mut ServerSnapshot<T>>,
    config: &TimewarpConfig,
    queue: &mut RollbackRequests,
    buffers: (Option<ComponentHistory<T>>, Option<ServerSnapshot<T>>),
    value: Option<&T>,
    rb: &Rollback,
    restoration: Restoration<T>,
)
    requires
        config.rollback_window > 0,
        call_ensures(
            insert_components_at_prior_frames::<T>,
            (entity, icaf, None, opt_ss, config, queue),
            buffers,
        ),
        call_ensures(ComponentHistory::<T>::at_frame, (&buffers.0->0, icaf.frame), value),
        rb.range.start == icaf.frame,
        call_ensures(
            rollback_initiated_for_component::<T>,
            (rb, None, &buffers.0->0, None),
            restoration,
        ),
    ensures
        value is Some && cloned(icaf.component, *value->0),
        restoration matches Restoration::Insert(val) && cloned(*value->0, val),
{
    let history = buffers.0->0;
    let life = (icaf.frame, None::<FrameNumber>);
    assert(history@.alive_ranges =~= seq![life]);
    assert(history@.alive_ranges[0] == life);
}

/// For an entity of the present, a snapshot newer than the last authoritative frame is taken over
/// exactly if it is not equal to what was predicted for its frame. It is then read there, its
/// frame is the last authoritative one, a rollback to it is asked for, and the present frame is
/// to be compared if corrections are logged. In all other cases nothing changes.
pub proof fn law_newer_snapshot_is_taken_over<T: Clone + PartialEq>(
    entity: &Entity,
    history: &mut ComponentHistory<T>,
    server: &ServerSnapshot<T>,
    clock: &GameClock,
    queue: &mut RollbackRequests,
    now: FrameNumber,
    newest: FrameNumber,
    snapshot: Option<&T>,
    predicted: Option<&T>,
    other: FrameNumber,
    before: Option<&T>,
    after: Option<&T>,
)
    requires
        call_ensures(GameClock::frame, (clock,), now),
        call_ensures(FrameBuffer::<T>::newest_frame, (&server.values,), newest),
        call_ensures(ServerSnapshot::<T>::at_frame, (server, newest), snapshot),
        call_ensures(ComponentHistory::<T>::at_frame, (&*old(history), newest), predicted),
        call_ensures(ComponentHistory::<T>::at_frame, (&*old(history), other), before),
        call_ensures(
            apply_snapshots_and_rollback_for_non_anachronous::<T>,
            (entity, history, server, clock, queue),
            (),
        ),
        call_ensures(ComponentHistory::<T>::at_frame, (&*final(history), other), after),
    ensures
        ({
            let news = newest > old(history).most_recent_authoritative_frame;
            let taken = final(history).most_recent_authoritative_frame != old(
                history,
            ).most_recent_authoritative_frame;
            &&& taken ==> news
            &&& news && predicted is None ==> taken
            &&& news && predicted is Some && taken ==> call_ensures(
                T::eq,
                (predicted->0, snapshot->0),
                false,
            )
            &&& news && predicted is Some && !taken ==> call_ensures(
                T::eq,
                (predicted->0, snapshot->0),
                true,
            )
            &&& T::obeys_eq_spec() ==> (taken <==> news && (predicted is None
                || !predicted->0.eq_spec(snapshot->0)))
            &&& !taken ==> *final(history) == *old(history) && *final(queue) == *old(queue)
            &&& taken ==> {
                &&& snapshot is Some
                &&& final(history).most_recent_authoritative_frame == newest
                &&& pending(*final(queue)) == pending(*old(queue)).push(newest)
                &&& sent(*final(queue)) == sent(*old(queue)) + 1
                &&& old(history).values@.accepts(newest) && other == newest ==> after is Some
                    && cloned(*snapshot->0, *after->0)
                &&& old(history).values@.accepts(newest) && other != newest ==> after == if newest
                    - other < old(history).values@.capacity {
                    before
                } else {
                    None
                }
                &&& !old(history).values@.accepts(newest) ==> after == before
                &&& final(history).values@.capacity == old(history).values@.capacity
                &&& final(history).alive_ranges@ == old(history).alive_ranges@
                &&& final(history).correction_logging_enabled == old(
                    history,
                ).correction_logging_enabled
                &&& final(history).diff_at_frame == if old(history).correction_logging_enabled {
                    Some(now)
                } else {
                    old(history).diff_at_frame
                }
            }
        }),
{
    if newest > 0 {
        assert(server@.get(newest) is Some);
    }
}

/// Snapshots are taken over one after the other: when the last authoritative frame is `a`, and
/// no snapshot is newer than that, one that comes for a later frame is taken over, if it was not
/// predicted, and a rollback to its frame is asked for. One that comes for `a` or before changes
/// nothing.
pub proof fn law_each_later_snapshot_asks_for_rollback<T: Clone + PartialEq>(
    entity: &Entity,
    server: &mut ServerSnapshot<T>,
    history: &mut ComponentHistory<T>,
    clock: &GameClock,
    queue: &mut RollbackRequests,
    newest: FrameNumber,
    a: FrameNumber,
    b: FrameNumber,
    val: T,
    predicted: Option<&T>,
    after: Option<&T>,
)
    requires
        T::obeys_eq_spec(),
        old(history).most_recent_authoritative_frame == a,
        call_ensures(FrameBuffer::<T>::newest_frame, (&old(server).values,), newest),
        newest <= a,
        old(server).values@.accepts(b),
        call_ensures(ServerSnapshot::<T>::insert, (server, b, val), ()),
        call_ensures(ComponentHistory::<T>::at_frame, (&*old(history), b), predicted),
        call_ensures(
            apply_snapshots_and_rollback_for_non_anachronous::<T>,
            (entity, history, &*final(server), clock, queue),
            (),
        ),
        call_ensures(ComponentHistory::<T>::at_frame, (&*final(history), b), after),
    ensures
        b <= a ==> *final(history) == *old(history) && *final(queue) == *old(queue),
        b > a && (predicted is None || !predicted->0.eq_spec(&val)) ==> {
            &&& final(history).most_recent_authoritative_frame == b
            &&& pending(*final(queue)) == pending(*old(queue)).push(b)
            &&& old(history).values@.accepts(b) ==> after is Some && cloned(val, *after->0)
        },
{
    law_insert_moves_newest_frame(old(server)@, b, val);
}

/// For an entity that is held back, the newest snapshot is taken over exactly if there is one and
/// the entity, at the present frame less the frames that it is held back, has reached it. The
/// rollback that is asked for is to the frame where the entity reaches it. In all other cases
/// nothing changes.
pub proof fn law_reached_snapshot_asks_for_rollback<T: Clone>(
    entity: &Entity,
    anachronous: &Anachronous,
    server: &ServerSnapshot<T>,
    history: &mut ComponentHistory<T>,
    clock: &GameClock,
    queue: &mut RollbackRequests,
    now: FrameNumber,
    newest: FrameNumber,
    snapshot: Option<&T>,
    other: FrameNumber,
    before: Option<&T>,
    after: Option<&T>,
)
    requires
        call_ensures(GameClock::frame, (clock,), now),
        call_ensures(FrameBuffer::<T>::newest_frame, (&server.values,), newest),
        call_ensures(ServerSnapshot::<T>::at_frame, (server, newest), snapshot),
        call_ensures(ComponentHistory::<T>::at_frame, (&*old(history), other), before),
        call_ensures(
            trigger_rollbacks_for_anachronous_entities_when_snapshots_arrive::<T>,
            (entity, anachronous, server, history, clock, queue),
            (),
        ),
        call_ensures(ComponentHistory::<T>::at_frame, (&*final(history), other), after),
    ensures
        newest == 0 || newest + anachronous@.frames_behind > now ==> *final(history) == *old(
            history,
        ) && *final(queue) == *old(queue),
        newest > 0 && newest + anachronous@.frames_behind <= now ==> {
            &&& snapshot is Some
            &&& pending(*final(queue)).len() == pending(*old(queue)).len() + 1
            &&& pending(*final(queue)).drop_last() == pending(*old(queue))
            &&& pending(*final(queue)).last() == newest + anachronous@.frames_behind
            &&& sent(*final(queue)) == sent(*old(queue)) + 1
            &&& final(history).most_recent_authoritative_frame == newest
            &&& old(history).values@.accepts(newest) && other == newest ==> after is Some && cloned(
                *snapshot->0,
                *after->0,
            )
            &&& old(history).values@.accepts(newest) && other != newest ==> after == if newest
                - other < old(history).values@.capacity {
                before
            } else {
                None
            }
            &&& !old(history).values@.accepts(newest) ==> after == before
            &&& final(history).values@.capacity == old(history).values@.capacity
            &&& final(history).alive_ranges@ == old(history).alive_ranges@
            &&& final(history).correction_logging_enabled == old(history).correction_logging_enabled
            &&& final(history).diff_at_frame == old(history).diff_at_frame
        },
{
    if newest > 0 {
        assert(server@.get(newest) is Some);
    }
    if newest > 0 && newest + anachronous@.frames_behind <= now {
        let frame = (newest + anachronous@.frames_behind) as FrameNumber;
        assert(pending(*final(queue)) == pending(*old(queue)).push(frame));
        assert(pending(*old(queue)).push(frame).drop_last() =~= pending(*old(queue)));
    }
}

/// The rollback that a held-back entity asked for loads its snapshot, if the history took it and
/// the component was alive at its frame.
pub proof fn law_rollback_of_held_back_entity_loads_snapshot<T: Clone>(
    entity: &Entity,
    anachronous: &Anachronous,
    server: &ServerSnapshot<T>,
    history: &mut ComponentHistory<T>,
    clock: &GameClock,
    queue: &mut RollbackRequests,
    newest: FrameNumber,
    snapshot: Option<&T>,
    alive: bool,
    taken: Option<&T>,
    rb: &Rollback,
    opt_comp: Option<&T>,
    restoration: Restoration<T>,
)
    requires
        call_ensures(FrameBuffer::<T>::newest_frame, (&server.values,), newest),
        call_ensures(ServerSnapshot::<T>::at_frame, (server, newest), snapshot),
        call_ensures(
            trigger_rollbacks_for_anachronous_entities_when_snapshots_arrive::<T>,
            (entity, anachronous, server, history, clock, queue),
            (),
        ),
        pending(*final(queue)) != pending(*old(queue)),
        rb.range.start == pending(*final(queue)).last(),
        old(history).values@.accepts(newest),
        call_ensures(ComponentHistory::<T>::alive_at_frame, (&*old(history), newest), alive),
        alive,
        call_ensures(ComponentHistory::<T>::at_frame, (&*final(history), newest), taken),
        call_ensures(
            rollback_initiated_for_component::<T>,
            (rb, opt_comp, &*final(history), Some(anachronous)),
            restoration,
        ),
    ensures
        snapshot is Some && taken is Some && cloned(*snapshot->0, *taken->0),
        opt_comp is Some ==> (restoration matches Restoration::Assign(val) && cloned(
            *taken->0,
            val,
        )),
        opt_comp is None ==> (restoration matches Restoration::Insert(val) && cloned(
            *taken->0,
            val,
        )),
{
    assert(server@.get(newest) is Some);
}

/// An entity that is held back snaps exactly if the frame that it comes to has a snapshot and the
/// last authoritative frame of its history is not after that. The frame that it comes to is the
/// present one less the frames that it is held back, and 0 if that is before the beginning; a lone
/// snapshot of frame 0 counts as none. The value is also recorded at the present frame.
pub proof fn law_held_back_entity_snaps_where_it_comes_to<T: Clone>(
    entity: &Entity,
    history: &mut ComponentHistory<T>,
    server: &ServerSnapshot<T>,
    anach: &Anachronous,
    clock: &GameClock,
    now: FrameNumber,
    newest: FrameNumber,
    target: FrameNumber,
    snapshot: Option<&T>,
    snapped: Option<T>,
    other: FrameNumber,
    before: Option<&T>,
    after: Option<&T>,
)
    requires
        call_ensures(GameClock::frame, (clock,), now),
        anach@.frames_behind <= now ==> target + anach@.frames_behind == now,
        anach@.frames_behind > now ==> target == 0,
        call_ensures(FrameBuffer::<T>::newest_frame, (&server.values,), newest),
        call_ensures(ServerSnapshot::<T>::at_frame, (server, target), snapshot),
        call_ensures(ComponentHistory::<T>::at_frame, (&*old(history), other), before),
        call_ensures(
            apply_snapshots_and_snap_for_anachronous::<T>,
            (entity, history, server, anach, clock),
            snapped,
        ),
        call_ensures(ComponentHistory::<T>::at_frame, (&*final(history), other), after),
    ensures
        snapped is Some <==> snapshot is Some && newest > 0 && old(
            history,
        ).most_recent_authoritative_frame <= target,
        target > 0 && snapshot is Some ==> newest > 0,
        snapped is None ==> *final(history) == *old(history),
        snapped is Some ==> {
            &&& cloned(*snapshot->0, snapped->0)
            &&& final(history).most_recent_authoritative_frame == now
            &&& old(history).values@.accepts(now) && other == now ==> after is Some && cloned(
                *snapshot->0,
                *after->0,
            )
            &&& old(history).values@.accepts(now) && other != now ==> after == if now - other < old(
                history,
            ).values@.capacity {
                before
            } else {
                None
            }
            &&& !old(history).values@.accepts(now) ==> after == before
            &&& final(history).values@.capacity == old(history).values@.capacity
            &&& final(history).alive_ranges@ == old(history).alive_ranges@
            &&& final(history).correction_logging_enabled == old(history).correction_logging_enabled
            &&& final(history).diff_at_frame == old(history).diff_at_frame
        },
{
    if server@.values.contains_key(target) {
        lemma_newest_exists(server@, target);
    }
}

/// A snapshot for a later frame, that leaves the one that an entity comes to in the window, has
/// no influence on whether the entity snaps, nor on what it snaps to. (Frame 0 is left out: a lone
/// snapshot there counts as none.)
pub proof fn law_later_snapshot_does_not_stop_a_snap<T: Clone>(
    entity: &Entity,
    server: &mut ServerSnapshot<T>,
    later_frame: FrameNumber,
    val: T,
    without: &mut ComponentHistory<T>,
    with: &mut ComponentHistory<T>,
    anach: &Anachronous,
    clock: &GameClock,
    now: FrameNumber,
    target: FrameNumber,
    snapshot: Option<&T>,
    snapped: Option<T>,
    snapped_too: Option<T>,
)
    requires
        call_ensures(GameClock::frame, (clock,), now),
        target > 0,
        target + anach@.frames_behind == now,
        target < later_frame,
        later_frame - target < old(server).values@.capacity,
        call_ensures(ServerSnapshot::<T>::at_frame, (&*old(server), target), snapshot),
        call_ensures(ServerSnapshot::<T>::insert, (server, later_frame, val), ()),
        *old(without) == *old(with),
        call_ensures(
            apply_snapshots_and_snap_for_anachronous::<T>,
            (entity, without, &*old(server), anach, clock),
            snapped,
        ),
        call_ensures(
            apply_snapshots_and_snap_for_anachronous::<T>,
            (entity, with, &*final(server), anach, clock),
            snapped_too,
        ),
    ensures
        snapped is Some <==> snapped_too is Some,
        snapped is Some ==> snapshot is Some && cloned(*snapshot->0, snapped->0) && cloned(
            *snapshot->0,
            snapped_too->0,
        ),
{
    let before = old(server)@;
    let after = final(server)@;
    assert(before.get(target) == after.get(target));
    if before.values.contains_key(target) {
        lemma_newest_exists(before, target);
        lemma_newest_exists(after, target);
    }
}

/// A component that was removed is not alive from now on, in the life that it had last. Other
/// lives, and all values, stay as they are.
pub proof fn law_removed_component_dies<T>(
    history: &mut ComponentHistory<T>,
    clock: &GameClock,
    now: FrameNumber,
    frame: FrameNumber,
    alive: bool,
)
    requires
        old(history).alive_ranges@.len() > 0,
        call_ensures(GameClock::frame, (clock,), now),
        call_ensures(record_component_removed_to_alive_ranges::<T>, (history, clock), ()),
        call_ensures(ComponentHistory::<T>::alive_at_frame, (&*final(history), frame), alive),
    ensures
        alive <==> lived_before(old(history).alive_ranges@, frame) || old(
            history,
        ).alive_ranges@.last().0 <= frame < now,
        final(history).alive_ranges@.drop_last() == old(history).alive_ranges@.drop_last(),
        final(history).alive_ranges@.last() == (
            old(history).alive_ranges@.last().0,
            Some(now),
        ),
        final(history).values@ == old(history).values@,
        final(history).diff_at_frame == old(history).diff_at_frame,
        final(history).correction_logging_enabled == old(history).correction_logging_enabled,
        final(history).most_recent_authoritative_frame == old(
            history,
        ).most_recent_authoritative_frame,
{
    lemma_death_ends_the_last_life(old(history)@, now, frame);
    assert(final(history)@.alive_ranges.drop_last() =~= old(history)@.alive_ranges.drop_last());
}

/// A component of an entity that is about to be despawned dies in the same way.
pub proof fn law_component_of_marked_entity_dies<T>(
    history: &mut ComponentHistory<T>,
    clock: &GameClock,
    now: FrameNumber,
    frame: FrameNumber,
    alive: bool,
)
    requires
        old(history).alive_ranges@.len() > 0,
        call_ensures(GameClock::frame, (clock,), now),
        call_ensures(
            remove_components_from_entities_with_freshly_added_despawn_markers::<T>,
            (history, clock),
            (),
        ),
        call_ensures(ComponentHistory::<T>::alive_at_frame, (&*final(history), frame), alive),
    ensures
        alive <==> lived_before(old(history).alive_ranges@, frame) || old(
            history,
        ).alive_ranges@.last().0 <= frame < now,
        final(history).alive_ranges@.drop_last() == old(history).alive_ranges@.drop_last(),
        final(history).alive_ranges@.last() == (
            old(history).alive_ranges@.last().0,
            Some(now),
        ),
        final(history).values@ == old(history).values@,
        final(history).diff_at_frame == old(history).diff_at_frame,
        final(history).correction_logging_enabled == old(history).correction_logging_enabled,
        final(history).most_recent_authoritative_frame == old(
            history,
        ).most_recent_authoritative_frame,
{
    lemma_death_ends_the_last_life(old(history)@, now, frame);
    assert(final(history)@.alive_ranges.drop_last() =~= old(history)@.alive_ranges.drop_last());
}

/// After a removal a rollback still brings the component back: to a frame of the life that it had
/// last, from its birth up to the removal, it restores what was recorded there; from the removal
/// on there is nothing to bring back.
pub proof fn law_removed_component_is_brought_back<T: Clone>(
    history: &mut ComponentHistory<T>,
    clock: &GameClock,
    now: FrameNumber,
    rb: &Rollback,
    recorded: Option<&T>,
    restoration: Restoration<T>,
)
    requires
        old(history).alive_ranges@.len() == 1,
        call_ensures(GameClock::frame, (clock,), now),
        call_ensures(ComponentHistory::<T>::at_frame, (&*old(history), rb.range.start), recorded),
        recorded is Some,
        call_ensures(record_component_removed_to_alive_ranges::<T>, (history, clock), ()),
        call_ensures(
            rollback_initiated_for_component::<T>,
            (rb, None, &*final(history), None),
            restoration,
        ),
    ensures
        old(history).alive_ranges@[0].0 <= rb.range.start < now ==> (
        restoration matches Restoration::Insert(val) && cloned(*recorded->0, val)),
        rb.range.start >= now ==> restoration is Dead,
{
    lemma_death_ends_the_last_life(old(history)@, now, rb.range.start);
}

/// A rollback starts at the first frame of its range, with time standing still. It keeps its
/// range and the period as it was, and is counted.
pub proof fn law_rollback_starts_at_its_first_frame(
    clock: &mut GameClock,
    rb: &mut Rollback,
    period: &mut Period,
    stats: &mut RollbackStats,
    shown: FrameNumber,
)
    requires
        call_ensures(rollback_initiated, (clock, rb, period, stats), ()),
        call_ensures(GameClock::frame, (&*final(clock),), shown),
    ensures
        shown == old(rb).range.start,
        final(rb).range.start == old(rb).range.start,
        final(rb).range.end == old(rb).range.end,
        final(rb).original_period == Some(*old(period)),
        final(period).secs == 0,
        final(period).nanos == 0,
        final(stats).num_rollbacks == old(stats).num_rollbacks + 1,
{
}

/// A rollback is over exactly outside its range. It is then handed on as the previous one, and
/// the period that it kept is the period again; until then the period stays.
pub proof fn law_rollback_is_over_outside_its_range(
    clock: &GameClock,
    now: FrameNumber,
    rb: &Rollback,
    period: &mut Period,
    completed: Option<PreviousRollback>,
)
    requires
        rb.original_period is Some || rb.range.start <= now < rb.range.end,
        call_ensures(GameClock::frame, (clock,), now),
        call_ensures(check_for_rollback_completion, (clock, rb, period), completed),
    ensures
        completed is None <==> rb.range.start <= now && now < rb.range.end,
        completed is None ==> *final(period) == *old(period),
        completed is Some ==> *final(period) == rb.original_period->0,
        completed matches Some(PreviousRollback(previous)) ==> {
            &&& previous.range.start == rb.range.start
            &&& previous.range.end == rb.range.end
            &&& previous.original_period == rb.original_period
        },
{
}

/// When a rollback that was started is over, the period is what it was before the start.
pub proof fn law_period_comes_back(
    clock: &mut GameClock,
    rb: &mut Rollback,
    period: &mut Period,
    stats: &mut RollbackStats,
    later_clock: &GameClock,
    later_period: &mut Period,
    completed: Option<PreviousRollback>,
)
    requires
        call_ensures(rollback_initiated, (clock, rb, period, stats), ()),
        *final(period) == *old(later_period),
        call_ensures(
            check_for_rollback_completion,
            (later_clock, &*final(rb), later_period),
            completed,
        ),
    ensures
        completed is Some ==> *final(later_period) == *old(period),
        completed is None ==> final(later_period).secs == 0 && final(later_period).nanos == 0,
{
}

/// During a rollback an entity without a component gets it back exactly if it is alive at the
/// present frame, with the value recorded there.
pub proof fn law_living_component_is_inserted_again<T: Clone>(
    history: &ComponentHistory<T>,
    clock: &GameClock,
    now: FrameNumber,
    alive: bool,
    recorded: Option<&T>,
    reinserted: Option<T>,
)
    requires
        call_ensures(GameClock::frame, (clock,), now),
        call_ensures(ComponentHistory::<T>::alive_at_frame, (history, now), alive),
        call_ensures(ComponentHistory::<T>::at_frame, (history, now), recorded),
        call_ensures(
            reinsert_components_removed_during_rollback_at_correct_frame::<T>,
            (history, clock),
            reinserted,
        ),
    ensures
        reinserted is Some <==> alive,
        reinserted is Some ==> recorded is Some && cloned(*recorded->0, reinserted->0),
{
}

/// During a rollback an entity with a component loses it exactly if it is not alive at the
/// present frame. Its values are then gone from this frame on, and only those; otherwise nothing
/// changes. What is known of its lives stays in any case.
pub proof fn law_dead_component_is_removed_again<T>(
    history: &mut ComponentHistory<T>,
    clock: &GameClock,
    now: FrameNumber,
    alive: bool,
    removed: bool,
    other: FrameNumber,
    before: Option<&T>,
    after: Option<&T>,
)
    requires
        call_ensures(GameClock::frame, (clock,), now),
        call_ensures(ComponentHistory::<T>::alive_at_frame, (&*old(history), now), alive),
        call_ensures(ComponentHistory::<T>::at_frame, (&*old(history), other), before),
        call_ensures(
            reremove_components_inserted_during_rollback_at_correct_frame::<T>,
            (history, clock),
            removed,
        ),
        call_ensures(ComponentHistory::<T>::at_frame, (&*final(history), other), after),
    ensures
        removed <==> !alive,
        after == if removed && now <= other {
            None
        } else {
            before
        },
        final(history).values@.capacity == old(history).values@.capacity,
        final(history).alive_ranges@ == old(history).alive_ranges@,
        final(history).diff_at_frame == old(history).diff_at_frame,
        final(history).correction_logging_enabled == old(history).correction_logging_enabled,
        final(history).most_recent_authoritative_frame == old(
            history,
        ).most_recent_authoritative_frame,
{
}

/// A marker takes the frame at which it is noticed first, and keeps it when it is noticed again.
pub proof fn law_marker_keeps_its_first_frame(
    marker: &mut DespawnMarker,
    clock: &GameClock,
    now: FrameNumber,
)
    requires
        call_ensures(GameClock::frame, (clock,), now),
        call_ensures(add_frame_to_freshly_added_despawn_markers, (marker, clock), ()),
    ensures
        final(marker).0 is Some,
        old(marker).0 is Some ==> final(marker).0 == old(marker).0,
        old(marker).0 is None ==> final(marker).0 == Some(now),
{
}

/// An entity is despawned exactly one rollback window after its marker was noticed.
pub proof fn law_despawn_comes_one_window_later(
    marker: &mut DespawnMarker,
    clock: &GameClock,
    noticed: FrameNumber,
    later_clock: &GameClock,
    now: FrameNumber,
    config: &TimewarpConfig,
    due: bool,
)
    requires
        call_ensures(DespawnMarker::new, (), *old(marker)),
        call_ensures(GameClock::frame, (clock,), noticed),
        call_ensures(add_frame_to_freshly_added_despawn_markers, (marker, clock), ()),
        call_ensures(GameClock::frame, (later_clock,), now),
        call_ensures(
            do_actual_despawn_after_rollback_frames_from_despawn_marker,
            (&*final(marker), later_clock, config),
            due,
        ),
    ensures
        due <==> now - noticed == config.rollback_window,
{
}

/// The same for a marker that came with a frame of its own.
pub proof fn law_despawn_counts_from_the_marker(
    marker: &DespawnMarker,
    clock: &GameClock,
    now: FrameNumber,
    config: &TimewarpConfig,
    due: bool,
)
    requires
        marker.0 is Some,
        call_ensures(GameClock::frame, (clock,), now),
        call_ensures(
            do_actual_despawn_after_rollback_frames_from_despawn_marker,
            (marker, clock, config),
            due,
        ),
    ensures
        due <==> now - marker.0->0 == config.rollback_window,
{
}

} // verus!
