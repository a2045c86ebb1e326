//! What calls on a component's history, on its snapshots and on the smaller types have to do with
//! one another.

use bevy::ecs::entity::Entity;
use vstd::prelude::*;

use crate::frame_buffer::FrameBuffer;
use crate::laws::{law_alive_from_birth, law_alive_until_death};
use crate::timewarp::{
    alive_in, Anachronous, ComponentHistory, FrameRange, History, InsertComponentAtFrame, Period,
    Rollback, RollbackStats, ServerSnapshot, TimewarpCorrection,
};
use crate::FrameNumber;

verus! {

/// A new history reaches `len` frames back, has no value yet, and its component is alive from the
/// birth on, at no frame before.
pub proof fn law_new_history_begins_with_birth<T>(
    len: usize,
    birth: FrameNumber,
    history: ComponentHistory<T>,
    frame: FrameNumber,
    alive: bool,
    value: Option<&T>,
)
    requires
        call_ensures(ComponentHistory::<T>::with_capacity, (len, birth), history),
        call_ensures(ComponentHistory::<T>::alive_at_frame, (&history, frame), alive),
        call_ensures(ComponentHistory::<T>::at_frame, (&history, frame), value),
    ensures
        alive <==> birth <= frame,
        value is None,
        history.values@.capacity == len,
        history.alive_ranges@.len() == 1,
        history.diff_at_frame is None,
        !history.correction_logging_enabled,
        history.most_recent_authoritative_frame == 0,
{
    law_alive_from_birth::<T>(history@, birth, frame);
    assert(history@ == History::<T>::born(len as nat, birth));
    assert(History::<T>::born(history@.frames.capacity, birth) == history@);
}

/// A read gives exactly what the history holds at the frame.
pub proof fn law_history_read_gives_what_is_held<T>(
    history: &ComponentHistory<T>,
    frame: FrameNumber,
    value: Option<&T>,
    buffered: Option<&T>,
)
    requires
        call_ensures(ComponentHistory::<T>::at_frame, (history, frame), value),
        call_ensures(FrameBuffer::<T>::get, (&history.values, frame), buffered),
    ensures
        value == buffered,
        value is Some <==> history.values@.values.contains_key(frame),
        value is Some ==> *value->0 == history.values@.values[frame],
        value is Some <==> history@.at(frame) is Some,
        value is Some ==> history@.at(frame) == Some(*value->0),
{
}

/// A component is alive exactly at the frames of its ranges: from the birth on, and before the
/// death, where there is one.
pub proof fn law_alive_from_births_to_deaths<T>(
    history: &ComponentHistory<T>,
    frame: FrameNumber,
    alive: bool,
)
    requires
        call_ensures(ComponentHistory::<T>::alive_at_frame, (history, frame), alive),
    ensures
        alive <==> exists|i: int|
            0 <= i < history.alive_ranges@.len() && (#[trigger] history.alive_ranges@[i]).0 <= frame
                && (history.alive_ranges@[i].1 is None || frame
                < history.alive_ranges@[i].1->0),
        alive <==> history@.alive_at(frame),
{
}

/// What is written at a frame that is not a whole window behind the newest one is read back there,
/// whether or not a value was there before. Other frames of the window read as before, and the
/// lives and marks of the component stay as they were.
pub proof fn law_recorded_value_is_read_back<T>(
    history: &mut ComponentHistory<T>,
    frame: FrameNumber,
    val: T,
    entity: &Entity,
    newest: FrameNumber,
    other: FrameNumber,
    before: Option<&T>,
    after: Option<&T>,
)
    requires
        call_ensures(FrameBuffer::<T>::newest_frame, (&old(history).values,), newest),
        call_ensures(ComponentHistory::<T>::at_frame, (&*old(history), other), before),
        call_ensures(ComponentHistory::<T>::insert, (history, frame, val, entity), ()),
        call_ensures(ComponentHistory::<T>::at_frame, (&*final(history), other), after),
    ensures
        after == if old(history).values@.capacity == 0 || newest - frame >= old(
            history,
        ).values@.capacity {
            before
        } else if other == frame {
            Some(&val)
        } else if frame - other < old(history).values@.capacity {
            before
        } else {
            None
        },
        final(history).values@.capacity == old(history).values@.capacity,
        final(history).alive_ranges@ == old(history).alive_ranges@,
        final(history).diff_at_frame == old(history).diff_at_frame,
        final(history).correction_logging_enabled == old(history).correction_logging_enabled,
        final(history).most_recent_authoritative_frame == old(
            history,
        ).most_recent_authoritative_frame,
{
    lemma_read_after_write(&history.values, newest, frame, val, other);
}

pub(crate) proof fn lemma_read_after_write<T>(
    buffer: &FrameBuffer<T>,
    newest: FrameNumber,
    frame: FrameNumber,
    val: T,
    other: FrameNumber,
)
    requires
        newest == buffer@.newest_frame(),
    ensures
        buffer@.accepts(frame) <==> buffer@.capacity > 0 && newest - frame < buffer@.capacity,
        buffer@.insert(frame, val).capacity == buffer@.capacity,
        buffer@.insert(frame, val).get(other) == if !buffer@.accepts(frame) {
            buffer@.get(other)
        } else if other == frame {
            Some(val)
        } else if frame - other < buffer@.capacity {
            buffer@.get(other)
        } else {
            None
        },
{
    crate::buffer_laws::lemma_accepts_within_window(buffer, newest, frame);
}

/// The server's value is written like any other, and the history then knows its frame as the
/// last authoritative one.
pub proof fn law_authoritative_value_is_read_back<T>(
    history: &mut ComponentHistory<T>,
    frame: FrameNumber,
    val: T,
    entity: &Entity,
    newest: FrameNumber,
    other: FrameNumber,
    before: Option<&T>,
    after: Option<&T>,
)
    requires
        call_ensures(FrameBuffer::<T>::newest_frame, (&old(history).values,), newest),
        call_ensures(ComponentHistory::<T>::at_frame, (&*old(history), other), before),
        call_ensures(ComponentHistory::<T>::insert_authoritative, (history, frame, val, entity), ()),
        call_ensures(ComponentHistory::<T>::at_frame, (&*final(history), other), after),
    ensures
        after == if old(history).values@.capacity == 0 || newest - frame >= old(
            history,
        ).values@.capacity {
            before
        } else if other == frame {
            Some(&val)
        } else if frame - other < old(history).values@.capacity {
            before
        } else {
            None
        },
        final(history).values@.capacity == old(history).values@.capacity,
        final(history).alive_ranges@ == old(history).alive_ranges@,
        final(history).diff_at_frame == old(history).diff_at_frame,
        final(history).correction_logging_enabled == old(history).correction_logging_enabled,
        final(history).most_recent_authoritative_frame == frame,
{
    lemma_read_after_write(&history.values, newest, frame, val, other);
}

/// To remove a frame and all beyond it leaves the frames before it as they read, and nothing from
/// it on. The lives and marks of the component stay as they were.
pub proof fn law_removed_frames_are_not_read<T>(
    history: &mut ComponentHistory<T>,
    frame: FrameNumber,
    other: FrameNumber,
    before: Option<&T>,
    after: Option<&T>,
)
    requires
        call_ensures(ComponentHistory::<T>::at_frame, (&*old(history), other), before),
        call_ensures(ComponentHistory::<T>::remove_frame_and_beyond, (history, frame), ()),
        call_ensures(ComponentHistory::<T>::at_frame, (&*final(history), other), after),
    ensures
        after == if other < frame {
            before
        } else {
            None
        },
        final(history).values@.capacity == old(history).values@.capacity,
        final(history).alive_ranges@ == old(history).alive_ranges@,
        final(history).diff_at_frame == old(history).diff_at_frame,
        final(history).correction_logging_enabled == old(history).correction_logging_enabled,
        final(history).most_recent_authoritative_frame == old(
            history,
        ).most_recent_authoritative_frame,
{
}

/// To enable correction logging changes nothing else.
pub proof fn law_correction_logging_is_enabled<T>(
    history: &mut ComponentHistory<T>,
    frame: FrameNumber,
    before: Option<&T>,
    after: Option<&T>,
)
    requires
        call_ensures(ComponentHistory::<T>::at_frame, (&*old(history), frame), before),
        call_ensures(ComponentHistory::<T>::enable_correction_logging, (history,), ()),
        call_ensures(ComponentHistory::<T>::at_frame, (&*final(history), frame), after),
    ensures
        final(history).correction_logging_enabled,
        after == before,
        final(history).values@.capacity == old(history).values@.capacity,
        final(history).alive_ranges@ == old(history).alive_ranges@,
        final(history).diff_at_frame == old(history).diff_at_frame,
        final(history).most_recent_authoritative_frame == old(
            history,
        ).most_recent_authoritative_frame,
{
}

/// A birth makes the component alive from its frame on. Before it nothing changes.
pub proof fn law_birth_begins_a_life<T>(
    history: &mut ComponentHistory<T>,
    birth: FrameNumber,
    frame: FrameNumber,
    before: bool,
    after: bool,
)
    requires
        call_ensures(ComponentHistory::<T>::alive_at_frame, (&*old(history), frame), before),
        call_ensures(ComponentHistory::<T>::report_birth_at_frame, (history, birth), ()),
        call_ensures(ComponentHistory::<T>::alive_at_frame, (&*final(history), frame), after),
    ensures
        after <==> before || birth <= frame,
        final(history).alive_ranges@ == old(history).alive_ranges@.push((birth, None)),
        final(history).values@ == old(history).values@,
        final(history).diff_at_frame == old(history).diff_at_frame,
        final(history).correction_logging_enabled == old(history).correction_logging_enabled,
        final(history).most_recent_authoritative_frame == old(
            history,
        ).most_recent_authoritative_frame,
{
    law_alive_from_birth(old(history)@, birth, frame);
}

/// A death ends the life that began last: the component is alive from that birth up to the death,
/// not at the death and not after it, besides the lives that it had before.
pub proof fn law_death_ends_the_last_life<T>(
    history: &mut ComponentHistory<T>,
    death: FrameNumber,
    frame: FrameNumber,
    after: bool,
)
    requires
        old(history).alive_ranges@.len() > 0,
        call_ensures(ComponentHistory::<T>::report_death_at_frame, (history, death), ()),
        call_ensures(ComponentHistory::<T>::alive_at_frame, (&*final(history), frame), after),
    ensures
        after <==> lived_before(old(history).alive_ranges@, frame) || old(
            history,
        ).alive_ranges@.last().0 <= frame < death,
        final(history).alive_ranges@.drop_last() == old(history).alive_ranges@.drop_last(),
        final(history).alive_ranges@.last() == (
            old(history).alive_ranges@.last().0,
            Some(death),
        ),
        final(history).values@ == old(history).values@,
        final(history).diff_at_frame == old(history).diff_at_frame,
        final(history).correction_logging_enabled == old(history).correction_logging_enabled,
        final(history).most_recent_authoritative_frame == old(
            history,
        ).most_recent_authoritative_frame,
{
    lemma_death_ends_the_last_life(old(history)@, death, frame);
    assert(final(history)@.alive_ranges.drop_last() =~= old(history)@.alive_ranges.drop_last());
}

/// `frame` lies in a life other than the one that began last.
pub open spec fn lived_before(ranges: Seq<FrameRange>, frame: FrameNumber) -> bool {
    exists|i: int|
        0 <= i < ranges.len() - 1 && (#[trigger] ranges[i]).0 <= frame && (ranges[i].1 is None
            || frame < ranges[i].1->0)
}

pub(crate) proof fn lemma_death_ends_the_last_life<T>(
    history: History<T>,
    death: FrameNumber,
    frame: FrameNumber,
)
    requires
        history.alive_ranges.len() > 0,
    ensures
        history.report_death(death).alive_at(frame) <==> lived_before(history.alive_ranges, frame)
            || history.alive_ranges.last().0 <= frame < death,
{
    let ranges = history.alive_ranges;
    let earlier = History { alive_ranges: ranges.drop_last(), ..history };
    let birth = ranges.last().0;
    law_alive_until_death(earlier, birth, death, frame);
    assert(earlier.report_birth(birth).report_death(death).alive_ranges
        =~= history.report_death(death).alive_ranges);
    if lived_before(ranges, frame) {
        let i = choose|i: int|
            0 <= i < ranges.len() - 1 && (#[trigger] ranges[i]).0 <= frame && (ranges[i].1 is None
                || frame < ranges[i].1->0);
        assert(ranges.drop_last()[i] == ranges[i]);
        assert(alive_in(ranges.drop_last(), frame));
    }
    if alive_in(ranges.drop_last(), frame) {
        let i = choose|i: int|
            0 <= i < ranges.len() - 1 && crate::timewarp::in_range(
                #[trigger] ranges.drop_last()[i],
                frame,
            );
        assert(ranges.drop_last()[i] == ranges[i]);
    }
}

/// A birth and a death reported one after the other add one life, from the one up to the other.
pub proof fn law_birth_and_death_add_a_life<T>(
    born: &mut ComponentHistory<T>,
    died: &mut ComponentHistory<T>,
    birth: FrameNumber,
    death: FrameNumber,
    frame: FrameNumber,
    before: bool,
    after: bool,
)
    requires
        call_ensures(ComponentHistory::<T>::alive_at_frame, (&*old(born), frame), before),
        call_ensures(ComponentHistory::<T>::report_birth_at_frame, (born, birth), ()),
        *final(born) == *old(died),
        call_ensures(ComponentHistory::<T>::report_death_at_frame, (died, death), ()),
        call_ensures(ComponentHistory::<T>::alive_at_frame, (&*final(died), frame), after),
    ensures
        after <==> before || birth <= frame < death,
{
    law_alive_until_death(old(born)@, birth, death, frame);
}

/// New snapshots have as much room as was asked for and no value.
pub proof fn law_new_snapshots_are_empty<T>(
    len: usize,
    snapshots: ServerSnapshot<T>,
    frame: FrameNumber,
    value: Option<&T>,
)
    requires
        call_ensures(ServerSnapshot::<T>::with_capacity, (len,), snapshots),
        call_ensures(ServerSnapshot::<T>::at_frame, (&snapshots, frame), value),
    ensures
        value is None,
        snapshots.values@.capacity == len,
{
}

/// A snapshot that is not a whole window behind the newest one is read back at its frame; the
/// others of the window stay.
pub proof fn law_snapshot_is_read_back<T>(
    snapshots: &mut ServerSnapshot<T>,
    frame: FrameNumber,
    val: T,
    newest: FrameNumber,
    other: FrameNumber,
    before: Option<&T>,
    after: Option<&T>,
    buffered: Option<&T>,
)
    requires
        call_ensures(FrameBuffer::<T>::newest_frame, (&old(snapshots).values,), newest),
        call_ensures(ServerSnapshot::<T>::at_frame, (&*old(snapshots), other), before),
        call_ensures(FrameBuffer::<T>::get, (&old(snapshots).values, other), buffered),
        call_ensures(ServerSnapshot::<T>::insert, (snapshots, frame, val), ()),
        call_ensures(ServerSnapshot::<T>::at_frame, (&*final(snapshots), other), after),
    ensures
        before == buffered,
        after == if old(snapshots).values@.capacity == 0 || newest - frame >= old(
            snapshots,
        ).values@.capacity {
            before
        } else if other == frame {
            Some(&val)
        } else if frame - other < old(snapshots).values@.capacity {
            before
        } else {
            None
        },
        final(snapshots).values@.capacity == old(snapshots).values@.capacity,
{
    lemma_read_after_write(&snapshots.values, newest, frame, val, other);
}

/// An entity that was just held back has neither a snapshot nor an input.
pub proof fn law_new_anachronous_has_no_frames(
    frames_behind: FrameNumber,
    anachronous: Anachronous,
    snapshot: FrameNumber,
    input: FrameNumber,
)
    requires
        call_ensures(Anachronous::new, (frames_behind,), anachronous),
        call_ensures(Anachronous::newest_snapshot_frame, (&anachronous,), snapshot),
        call_ensures(Anachronous::newest_input_frame, (&anachronous,), input),
    ensures
        anachronous@.frames_behind == frames_behind,
        snapshot == 0,
        input == 0,
{
}

/// A snapshot's frame is kept exactly if it is newer than the one before; nothing else changes.
pub proof fn law_newer_snapshot_frame_is_kept(
    anachronous: &mut Anachronous,
    frame: FrameNumber,
    newer: bool,
    before: FrameNumber,
    after: FrameNumber,
    input_before: FrameNumber,
    input_after: FrameNumber,
)
    requires
        call_ensures(Anachronous::newest_snapshot_frame, (&*old(anachronous),), before),
        call_ensures(Anachronous::newest_input_frame, (&*old(anachronous),), input_before),
        call_ensures(Anachronous::set_newest_snapshot_frame, (anachronous, frame), newer),
        call_ensures(Anachronous::newest_snapshot_frame, (&*final(anachronous),), after),
        call_ensures(Anachronous::newest_input_frame, (&*final(anachronous),), input_after),
    ensures
        newer <==> before < frame,
        newer ==> after == frame,
        !newer ==> after == before,
        input_after == input_before,
        final(anachronous)@.frames_behind == old(anachronous)@.frames_behind,
{
}

/// An input's frame is kept exactly if it is newer than the one before; nothing else changes.
pub proof fn law_newer_input_frame_is_kept(
    anachronous: &mut Anachronous,
    frame: FrameNumber,
    newer: bool,
    before: FrameNumber,
    after: FrameNumber,
    snapshot_before: FrameNumber,
    snapshot_after: FrameNumber,
)
    requires
        call_ensures(Anachronous::newest_input_frame, (&*old(anachronous),), before),
        call_ensures(Anachronous::newest_snapshot_frame, (&*old(anachronous),), snapshot_before),
        call_ensures(Anachronous::set_newest_input_frame, (anachronous, frame), newer),
        call_ensures(Anachronous::newest_input_frame, (&*final(anachronous),), after),
        call_ensures(Anachronous::newest_snapshot_frame, (&*final(anachronous),), snapshot_after),
    ensures
        newer <==> before < frame,
        newer ==> after == frame,
        !newer ==> after == before,
        snapshot_after == snapshot_before,
        final(anachronous)@.frames_behind == old(anachronous)@.frames_behind,
{
}

/// A copy of a held-back entity's state has the same frames.
pub proof fn law_anachronous_clone_is_the_same(
    anachronous: &Anachronous,
    copy: Anachronous,
    snapshot: FrameNumber,
    copied_snapshot: FrameNumber,
    input: FrameNumber,
    copied_input: FrameNumber,
)
    requires
        call_ensures(Anachronous::clone, (anachronous,), copy),
        call_ensures(Anachronous::newest_snapshot_frame, (anachronous,), snapshot),
        call_ensures(Anachronous::newest_snapshot_frame, (&copy,), copied_snapshot),
        call_ensures(Anachronous::newest_input_frame, (anachronous,), input),
        call_ensures(Anachronous::newest_input_frame, (&copy,), copied_input),
    ensures
        copied_snapshot == snapshot,
        copied_input == input,
        copy@.frames_behind == anachronous@.frames_behind,
{
}

/// A new rollback has the range that was asked for and keeps no period yet; a copy is the same.
pub proof fn law_new_rollback_has_its_range(
    start: FrameNumber,
    end: FrameNumber,
    rollback: Rollback,
    copy: Rollback,
    frame: FrameNumber,
)
    requires
        call_ensures(Rollback::new, (start, end), rollback),
        call_ensures(Rollback::clone, (&rollback,), copy),
    ensures
        rollback.range.start == start,
        rollback.range.end == end,
        rollback.original_period is None,
        rollback.spec_contains(frame) <==> start <= frame < end,
        copy == rollback,
{
}

/// No rollback was counted at first, and the zero period takes no time.
pub proof fn law_counts_begin_at_zero(stats: RollbackStats, period: Period)
    requires
        call_ensures(RollbackStats::default, (), stats),
        call_ensures(Period::zero, (), period),
    ensures
        stats.num_rollbacks == 0,
        period.secs == 0,
        period.nanos == 0,
{
}

/// What is to be inserted is kept, with its frame.
pub proof fn law_insertion_keeps_component_and_frame<T>(
    frame: FrameNumber,
    component: T,
    insertion: InsertComponentAtFrame<T>,
)
    requires
        call_ensures(InsertComponentAtFrame::<T>::new, (frame, component), insertion),
    ensures
        insertion.frame == frame,
        insertion.component == component,
{
}

/// A copy of a correction has copies of both values, and the frame.
pub proof fn law_correction_clone_is_the_same<T: Clone>(
    correction: &TimewarpCorrection<T>,
    copy: TimewarpCorrection<T>,
)
    requires
        call_ensures(TimewarpCorrection::<T>::clone, (correction,), copy),
    ensures
        cloned(correction.before, copy.before),
        cloned(correction.after, copy.after),
        copy.frame == correction.frame,
{
}

} // verus!
