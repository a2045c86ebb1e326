//! What holds of the library as a whole.

use vstd::prelude::*;

use crate::clock::{frames_before, later, DespawnMarker, TimewarpConfig};
use crate::frame_buffer::{lemma_newest_exists, Frames};
use crate::systems::{
    buffered_history, covers_requests, despawn_is_due, diff_is_due, has_news, has_reached_snapshot,
    inserted_history, noticed_at, reinserts, reremoves, restores, snaps_at, snapshot_taken_over,
    Restoration,
};
use crate::timewarp::{alive_in, in_range, AnachronousState, FrameRange, History, Period, Rollback};
use crate::FrameNumber;

verus! {

/// A value that was accepted is the one read back. At other frames nothing changes, except that
/// frames which the new one pushes out of the window are forgotten.
pub proof fn law_insert_then_get<T>(
    frames: Frames<T>,
    frame: FrameNumber,
    val: T,
    other: FrameNumber,
)
    ensures
        frames.accepts(frame) ==> frames.insert(frame, val).get(frame) == Some(val),
        other != frame && frame - other < frames.capacity ==> frames.insert(frame, val).get(other)
            == frames.get(other),
        frames.accepts(frame) && frame - other >= frames.capacity ==> frames.insert(
            frame,
            val,
        ).get(other) is None,
        !frames.accepts(frame) ==> frames.insert(frame, val) == frames,
{
}

/// Every operation keeps the values within the window.
pub proof fn law_operations_keep_window<T>(
    frames: Frames<T>,
    frame: FrameNumber,
    val: T,
    end: int,
)
    requires
        frames.valid(),
    ensures
        frames.insert(frame, val).valid(),
        frames.before(end).valid(),
        Frames::<T>::empty(frames.capacity).valid(),
{
}

/// What was stored later at a frame replaces what was stored there before.
pub proof fn law_last_insert_wins<T>(frames: Frames<T>, frame: FrameNumber, first: T, second: T)
    ensures
        frames.insert(frame, first).insert(frame, second) == frames.insert(frame, second),
{
    assert(frames.insert(frame, first).insert(frame, second) =~= frames.insert(frame, second));
}

/// Values for two different frames can arrive in either order.
pub proof fn law_inserts_commute<T>(
    frames: Frames<T>,
    a: FrameNumber,
    val_a: T,
    b: FrameNumber,
    val_b: T,
)
    requires
        a != b,
    ensures
        frames.insert(a, val_a).insert(b, val_b) == frames.insert(b, val_b).insert(a, val_a),
{
    if a < b {
        lemma_inserts_commute(frames, a, val_a, b, val_b);
    } else {
        lemma_inserts_commute(frames, b, val_b, a, val_a);
    }
}

proof fn lemma_inserts_commute<T>(
    frames: Frames<T>,
    a: FrameNumber,
    val_a: T,
    b: FrameNumber,
    val_b: T,
)
    requires
        a < b,
    ensures
        frames.insert(a, val_a).insert(b, val_b) == frames.insert(b, val_b).insert(a, val_a),
{
    let a_then_b = frames.insert(a, val_a).insert(b, val_b);
    let b_then_a = frames.insert(b, val_b).insert(a, val_a);
    let with_a = frames.insert(a, val_a);
    let with_b = frames.insert(b, val_b);
    if frames.accepts(b) {
        assert(with_a.accepts(b));
        assert(with_b.values.contains_key(b));
        if frames.accepts(a) && b - a < frames.capacity {
            assert(with_b.accepts(a));
        } else if !frames.accepts(a) {
            let held = choose|held: FrameNumber| #[trigger]
                frames.values.contains_key(held) && held - a >= frames.capacity;
            assert(with_b.values.contains_key(held) || b - held >= frames.capacity);
            assert(!with_b.accepts(a));
        } else {
            assert(!with_b.accepts(a));
        }
    } else if frames.capacity > 0 {
        let held = choose|held: FrameNumber| #[trigger]
            frames.values.contains_key(held) && held - b >= frames.capacity;
        assert(!frames.accepts(a));
    }
    assert(a_then_b =~= b_then_a);
}

/// The newest frame, if it is not 0, holds a value, and no later frame does.
pub proof fn law_newest_frame_holds_a_value<T>(frames: Frames<T>, other: FrameNumber)
    ensures
        frames.newest_frame() > 0 ==> frames.get(frames.newest_frame()) is Some,
        other > frames.newest_frame() ==> frames.get(other) is None,
{
    if frames.values.contains_key(other) {
        lemma_newest_exists(frames, other);
    }
}

/// A value that was accepted moves the newest frame forward, never back.
pub proof fn law_insert_moves_newest_frame<T>(frames: Frames<T>, frame: FrameNumber, val: T)
    ensures
        frames.insert(frame, val).newest_frame() == if frames.accepts(frame) {
            later(frame, frames.newest_frame())
        } else {
            frames.newest_frame()
        },
{
    if frames.accepts(frame) {
        let newest = frames.newest_frame();
        let inserted = frames.insert(frame, val);
        law_newest_frame_holds_a_value(frames, frame);
        assert(inserted.values.contains_key(frame));
        lemma_newest_exists(inserted, frame);
        let moved = inserted.newest_frame();
        if moved != frame {
            assert(frames.values.contains_key(moved));
            lemma_newest_exists(frames, moved);
        }
        if frames.values.contains_key(newest) && newest > frame {
            assert(inserted.values.contains_key(newest));
        }
    }
}

/// What is held after `vals` were recorded one after the other, from frame `start` on.
pub open spec fn record_run<T>(frames: Frames<T>, start: FrameNumber, vals: Seq<T>) -> Frames<T>
    decreases vals.len(),
{
    if vals.len() == 0 {
        frames
    } else {
        record_run(frames, start, vals.drop_last()).insert(
            (start + vals.len() - 1) as FrameNumber,
            vals.last(),
        )
    }
}

/// When values are recorded frame by frame, each is held until `capacity` more frames were
/// recorded. This is so as well where the frames were recorded before, as in a resimulation.
pub proof fn law_recorded_run_is_held<T>(
    frames: Frames<T>,
    start: FrameNumber,
    vals: Seq<T>,
    frame: FrameNumber,
)
    requires
        frames.accepts(start),
        start <= frame < start + vals.len() <= FrameNumber::MAX + 1,
    ensures
        record_run(frames, start, vals).get(frame) == if start + vals.len() - frame
            <= frames.capacity {
            Some(vals[frame - start])
        } else {
            None
        },
{
    lemma_recorded_run(frames, start, vals);
}

pub(crate) proof fn lemma_recorded_run<T>(frames: Frames<T>, start: FrameNumber, vals: Seq<T>)
    requires
        frames.accepts(start),
        start + vals.len() <= FrameNumber::MAX + 1,
    ensures
        record_run(frames, start, vals).capacity == frames.capacity,
        start + vals.len() <= FrameNumber::MAX ==> record_run(frames, start, vals).accepts(
            (start + vals.len()) as FrameNumber,
        ),
        forall|frame: FrameNumber|
            start <= frame < start + vals.len() ==> #[trigger] record_run(frames, start, vals).get(
                frame,
            ) == if start + vals.len() - frame <= frames.capacity {
                Some(vals[frame - start])
            } else {
                None
            },
    decreases vals.len(),
{
    if vals.len() > 0 {
        let before = record_run(frames, start, vals.drop_last());
        let last = (start + vals.len() - 1) as FrameNumber;
        lemma_recorded_run(frames, start, vals.drop_last());
        let after = before.insert(last, vals.last());
        if last < FrameNumber::MAX {
            assert forall|held: FrameNumber| #[trigger]
                after.values.contains_key(held) implies held - (last + 1) < after.capacity by {
                assert(held == last || before.values.contains_key(held));
            }
        }
        assert forall|frame: FrameNumber| start <= frame < start + vals.len() implies #[trigger]
            after.get(frame) == if start + vals.len() - frame <= frames.capacity {
                Some(vals[frame - start])
            } else {
                None
            } by {
            if frame != last {
                assert(before.get(frame) == if start + vals.len() - 1 - frame <= frames.capacity {
                    Some(vals.drop_last()[frame - start])
                } else {
                    None
                });
            }
        }
    }
}

/// To store a value where it is already held changes nothing.
pub proof fn law_same_value_changes_nothing<T>(frames: Frames<T>, frame: FrameNumber, val: T)
    requires
        frames.valid(),
        frames.get(frame) == Some(val),
    ensures
        frames.insert(frame, val) == frames,
{
    assert(frames.values.contains_key(frame));
    assert(frames.insert(frame, val) =~= frames);
}

/// The value `count` frames after `first`, where `step` simulates one frame.
pub open spec fn simulated<T>(step: spec_fn(T) -> T, first: T, count: nat) -> T
    decreases count,
{
    if count == 0 {
        first
    } else {
        step(simulated(step, first, (count - 1) as nat))
    }
}

/// A perfect simulation arrives at the same values again: to go back to any frame that is held,
/// and to simulate from there up to the present and record that, changes nothing.
pub proof fn law_perfect_simulation_changes_nothing<T>(
    frames: Frames<T>,
    step: spec_fn(T) -> T,
    start: FrameNumber,
    count: nat,
    target: FrameNumber,
)
    requires
        frames.valid(),
        start <= target < start + count <= FrameNumber::MAX + 1,
        forall|i: nat|
            i < count ==> frames.get((start + i) as FrameNumber) == Some(
                #[trigger] simulated(step, frames.values[start], i),
            ),
    ensures
        record_run(
            frames,
            target,
            Seq::new(
                (start + count - target) as nat,
                |i: int| simulated(step, frames.values[target], i as nat),
            ),
        ) == frames,
{
    let first = frames.values[start];
    let vals = Seq::new(
        (start + count - target) as nat,
        |i: int| simulated(step, frames.values[target], i as nat),
    );
    let skipped = (target - start) as nat;
    assert(frames.get((start + skipped) as FrameNumber) == Some(simulated(step, first, skipped)));
    assert forall|i: int| 0 <= i < vals.len() implies frames.get((target + i) as FrameNumber)
        == Some(#[trigger] vals[i]) by {
        lemma_simulated_adds_up(step, first, skipped, i as nat);
        let passed = (skipped + i) as nat;
        assert(frames.get((start + passed) as FrameNumber) == Some(simulated(step, first, passed)));
    }
    lemma_same_run_changes_nothing(frames, target, vals);
}

proof fn lemma_simulated_adds_up<T>(step: spec_fn(T) -> T, first: T, a: nat, b: nat)
    ensures
        simulated(step, simulated(step, first, a), b) == simulated(step, first, a + b),
    decreases b,
{
    if b > 0 {
        lemma_simulated_adds_up(step, first, a, (b - 1) as nat);
    }
}

proof fn lemma_same_run_changes_nothing<T>(frames: Frames<T>, start: FrameNumber, vals: Seq<T>)
    requires
        frames.valid(),
        start + vals.len() <= FrameNumber::MAX + 1,
        forall|i: int|
            0 <= i < vals.len() ==> frames.get((start + i) as FrameNumber) == Some(
                #[trigger] vals[i],
            ),
    ensures
        record_run(frames, start, vals) == frames,
    decreases vals.len(),
{
    if vals.len() > 0 {
        let last = vals.len() - 1;
        assert forall|i: int| 0 <= i < last implies frames.get((start + i) as FrameNumber) == Some(
            #[trigger] vals.drop_last()[i],
        ) by {
            assert(vals.drop_last()[i] == vals[i]);
        }
        lemma_same_run_changes_nothing(frames, start, vals.drop_last());
        assert(frames.get((start + last) as FrameNumber) == Some(vals[last]));
        law_same_value_changes_nothing(frames, (start + last) as FrameNumber, vals.last());
    }
}

/// After `frame` and beyond were removed, nothing is held there, earlier frames are as before,
/// and `frame` can be recorded again.
pub proof fn law_remove_frame_and_beyond<T>(
    history: History<T>,
    frame: FrameNumber,
    other: FrameNumber,
)
    ensures
        history.remove_frame_and_beyond(frame).at(other) == if other < frame {
            history.at(other)
        } else {
            None
        },
        history.frames.capacity > 0 ==> history.remove_frame_and_beyond(frame).frames.accepts(
            frame,
        ),
{
}

/// A component is alive from its birth on.
pub proof fn law_alive_from_birth<T>(history: History<T>, birth: FrameNumber, frame: FrameNumber)
    ensures
        history.report_birth(birth).alive_at(frame) <==> history.alive_at(frame) || birth <= frame,
        History::<T>::born(history.frames.capacity, birth).alive_at(frame) <==> birth <= frame,
{
    let ranges = history.report_birth(birth).alive_ranges;
    let last: FrameRange = (birth, None);
    assert(ranges.last() == last);
    assert(ranges.drop_last() == history.alive_ranges);
    lemma_alive_in_push(history.alive_ranges, last, frame);
    let born = History::<T>::born(history.frames.capacity, birth).alive_ranges;
    assert(born[0] == last);
}

/// A birth and a death after it: the component is alive from the one up to the other, and not
/// any more at the other. Lives that it had before are as they were.
pub proof fn law_alive_until_death<T>(
    history: History<T>,
    birth: FrameNumber,
    death: FrameNumber,
    frame: FrameNumber,
)
    ensures
        history.report_birth(birth).report_death(death).alive_at(frame) <==> history.alive_at(frame)
            || birth <= frame < death,
        History::<T>::born(history.frames.capacity, birth).report_death(death).alive_at(frame)
            <==> birth <= frame < death,
{
    let life: FrameRange = (birth, Some(death));
    assert(history.report_birth(birth).report_death(death).alive_ranges
        =~= history.alive_ranges.push(life));
    lemma_alive_in_push(history.alive_ranges, life, frame);
    let only = History::<T>::born(history.frames.capacity, birth).report_death(death).alive_ranges;
    assert(only =~= seq![life]);
    assert(only[0] == life);
}

proof fn lemma_alive_in_push(ranges: Seq<FrameRange>, last: FrameRange, frame: FrameNumber)
    ensures
        alive_in(ranges.push(last), frame) <==> alive_in(ranges, frame) || in_range(last, frame),
{
    let pushed = ranges.push(last);
    if alive_in(ranges, frame) {
        let i = choose|i: int| 0 <= i < ranges.len() && in_range(#[trigger] ranges[i], frame);
        assert(pushed[i] == ranges[i]);
    }
    if in_range(last, frame) {
        assert(pushed[ranges.len() as int] == last);
    }
    if alive_in(pushed, frame) {
        let i = choose|i: int| 0 <= i < pushed.len() && in_range(#[trigger] pushed[i], frame);
        if i < ranges.len() {
            assert(ranges[i] == pushed[i]);
        }
    }
}

/// A history begins with a birth and never loses it, whatever is done to it, so that there is
/// always one for a death to follow. Its values stay within the window.
pub proof fn law_history_stays_sound<T>(history: History<T>, frame: FrameNumber, val: T, len: nat)
    requires
        history.alive_ranges.len() > 0,
        history.frames.valid(),
    ensures
        History::<T>::born(len, frame).alive_ranges.len() > 0,
        History::<T>::born(len, frame).frames.valid(),
        history.insert(frame, val).alive_ranges.len() > 0,
        history.insert(frame, val).frames.valid(),
        history.insert_authoritative(frame, val).alive_ranges.len() > 0,
        history.insert_authoritative(frame, val).frames.valid(),
        history.remove_frame_and_beyond(frame).alive_ranges.len() > 0,
        history.remove_frame_and_beyond(frame).frames.valid(),
        history.report_birth(frame).alive_ranges.len() > 0,
        history.report_birth(frame).frames.valid(),
        history.report_death(frame).alive_ranges.len() > 0,
        history.report_death(frame).frames.valid(),
{
    law_operations_keep_window(history.frames, frame, val, frame as int);
}

/// A rollback that came of requests covers each of them: it goes back at least as far, and a
/// request for a frame of the past is among the frames to simulate again.
pub proof fn law_rollback_covers_requests(
    frames: Seq<FrameNumber>,
    now: FrameNumber,
    rollback: Option<Rollback>,
    i: int,
)
    requires
        covers_requests(frames, now, rollback),
        0 <= i < frames.len(),
    ensures
        rollback is Some,
        rollback->0.range.start <= frames[i],
        frames[i] < now ==> rollback->0.spec_contains(frames[i]),
{
}

/// Which frames were asked for decides alone: neither the order of the requests nor how often one
/// was repeated is of any importance.
pub proof fn law_request_order_and_repetition_are_irrelevant(
    frames: Seq<FrameNumber>,
    others: Seq<FrameNumber>,
    now: FrameNumber,
    rollback: Option<Rollback>,
    other: Option<Rollback>,
)
    requires
        forall|frame: FrameNumber|
            #![trigger frames.contains(frame)]
            #![trigger others.contains(frame)]
            frames.contains(frame) <==> others.contains(frame),
        covers_requests(frames, now, rollback),
        covers_requests(others, now, other),
    ensures
        rollback == other,
{
    if let Some(rollback) = rollback {
        assert(others.contains(rollback.range.start));
    }
    if let Some(other) = other {
        assert(frames.contains(other.range.start));
    }
}

/// Once started, a rollback over a range that is not empty is under way at its first frame, and
/// it is over when the clock, frame by frame, has come to the end of the range, no sooner and no
/// later. A rollback over an empty range is over at once. The period to restore is the one from
/// before the rollback.
pub proof fn law_rollback_runs_its_range(rb: Rollback, period: Period, frame: FrameNumber)
    ensures
        rb.range.start < rb.range.end ==> rb.started(period).spec_contains(rb.range.start),
        rb.range.start >= rb.range.end ==> !rb.started(period).spec_contains(rb.range.start),
        rb.range.start <= frame < rb.range.end ==> rb.started(period).spec_contains(frame),
        frame >= rb.range.end ==> !rb.started(period).spec_contains(frame),
        rb.started(period).original_period == Some(period),
{
}

/// A rollback to a frame that was recorded brings back what was recorded there, as long as the
/// frame is in the window.
pub proof fn law_rollback_restores_recorded_value<T: Clone>(
    history: History<T>,
    start: FrameNumber,
    vals: Seq<T>,
    target: FrameNumber,
    present: bool,
    restoration: Restoration<T>,
)
    requires
        history.frames.accepts(start),
        start <= target < start + vals.len() <= FrameNumber::MAX + 1,
        start + vals.len() - target <= history.frames.capacity,
        history.alive_at(target),
        restores(
            History { frames: record_run(history.frames, start, vals), ..history },
            target,
            present,
            restoration,
        ),
    ensures
        restoration.value() is Some,
        cloned(vals[target - start], restoration.value()->0),
        restoration is Assign <==> present,
{
    law_recorded_run_is_held(history.frames, start, vals, target);
}

/// The frame that a held-back entity asks to be rolled back to is not in the future, and it is
/// the frame at which the entity, held back, comes to its snapshot. The rollback then loads the
/// snapshot.
pub proof fn law_anachronous_rollback_loads_snapshot<T: Clone>(
    history: History<T>,
    snapshots: Frames<T>,
    now: FrameNumber,
    frames_behind: FrameNumber,
    val: T,
    present: bool,
    restoration: Restoration<T>,
)
    requires
        has_reached_snapshot(snapshots, now, frames_behind),
        history.frames.accepts(snapshots.newest_frame()),
        history.alive_at(snapshots.newest_frame()),
        restores(
            history.insert_authoritative(snapshots.newest_frame(), val),
            frames_before(
                (snapshots.newest_frame() + frames_behind) as FrameNumber,
                frames_behind,
            ),
            present,
            restoration,
        ),
    ensures
        snapshots.newest_frame() + frames_behind <= now,
        frames_before((snapshots.newest_frame() + frames_behind) as FrameNumber, frames_behind)
            == snapshots.newest_frame(),
        restoration.value() is Some,
        cloned(val, restoration.value()->0),
{
}

/// A snapshot of a held-back entity takes effect as well where a rollback goes further back than
/// the entity asked for. On the way forward the entity snaps to it at the frame at which, held
/// back, it comes to it, and to no snapshot before that.
pub proof fn law_anachronous_snaps_on_the_way<T>(
    history: History<T>,
    snapshots: Frames<T>,
    now: FrameNumber,
    frames_behind: FrameNumber,
    val: T,
    frame: FrameNumber,
)
    requires
        has_reached_snapshot(snapshots, now, frames_behind),
        frame <= snapshots.newest_frame() + frames_behind,
    ensures
        snaps_at(
            history.insert_authoritative(snapshots.newest_frame(), val),
            snapshots,
            frame,
            frames_behind,
        ) <==> frame == snapshots.newest_frame() + frames_behind,
{
    law_newest_frame_holds_a_value(snapshots, 0);
}

/// Between the arrival of a snapshot and the frame where it takes effect, what is recorded of the
/// entity, and its births and deaths, have no influence on that.
pub proof fn law_recording_does_not_stop_a_snap<T>(
    history: History<T>,
    snapshots: Frames<T>,
    frame: FrameNumber,
    frames_behind: FrameNumber,
    recorded_at: FrameNumber,
    val: T,
)
    ensures
        snaps_at(history.insert(recorded_at, val), snapshots, frame, frames_behind) <==> snaps_at(
            history,
            snapshots,
            frame,
            frames_behind,
        ),
        snaps_at(
            history.remove_frame_and_beyond(recorded_at),
            snapshots,
            frame,
            frames_behind,
        ) <==> snaps_at(history, snapshots, frame, frames_behind),
        snaps_at(history.report_birth(recorded_at), snapshots, frame, frames_behind) <==> snaps_at(
            history,
            snapshots,
            frame,
            frames_behind,
        ),
        snaps_at(history.report_death(recorded_at), snapshots, frame, frames_behind) <==> snaps_at(
            history,
            snapshots,
            frame,
            frames_behind,
        ),
{
}

/// Once a snapshot was taken over, it is no news any more; a rollback to its frame loads it.
pub proof fn law_snapshot_is_taken_over_once<T: Clone>(
    before: History<T>,
    after: History<T>,
    snapshots: Frames<T>,
    now: FrameNumber,
    present: bool,
    restoration: Restoration<T>,
)
    requires
        has_news(before, snapshots),
        snapshot_taken_over(before, after, snapshots, now),
        restores(after, snapshots.newest_frame(), present, restoration),
    ensures
        !has_news(after, snapshots),
        before.frames.accepts(snapshots.newest_frame()) && before.alive_at(snapshots.newest_frame())
            ==> after.at(snapshots.newest_frame()) is Some && restoration.value() is Some && cloned(
            after.at(snapshots.newest_frame())->0,
            restoration.value()->0,
        ) && cloned(
            snapshots.values[snapshots.newest_frame()],
            after.at(snapshots.newest_frame())->0,
        ),
{
}

/// After a snapshot was taken over, one for any later frame is news again, and one for the same
/// frame or an earlier one is not.
pub proof fn law_later_snapshot_is_news<T: Clone>(
    before: History<T>,
    after: History<T>,
    snapshots: Frames<T>,
    now: FrameNumber,
    frame: FrameNumber,
    val: T,
)
    requires
        snapshot_taken_over(before, after, snapshots, now),
        snapshots.accepts(frame),
    ensures
        has_news(after, snapshots.insert(frame, val)) <==> frame > snapshots.newest_frame(),
{
    law_insert_moves_newest_frame(snapshots, frame, val);
}

/// Any snapshot that is held, the newest or an earlier one, is snapped to when the entity comes to
/// its frame, if the last authoritative frame is not after it. A snapshot for a later frame that
/// leaves it in the window has no influence on that.
pub proof fn law_every_held_snapshot_is_snapped_to<T>(
    history: History<T>,
    snapshots: Frames<T>,
    frame: FrameNumber,
    frames_behind: FrameNumber,
    later_frame: FrameNumber,
    val: T,
)
    requires
        0 < frame < later_frame,
        frame + frames_behind <= FrameNumber::MAX,
        later_frame - frame < snapshots.capacity,
        snapshots.get(frame) is Some,
    ensures
        snaps_at(history, snapshots, (frame + frames_behind) as FrameNumber, frames_behind)
            <==> history.most_recent_authoritative_frame <= frame,
        snaps_at(
            history,
            snapshots.insert(later_frame, val),
            (frame + frames_behind) as FrameNumber,
            frames_behind,
        ) <==> history.most_recent_authoritative_frame <= frame,
{
    lemma_newest_exists(snapshots, frame);
    lemma_newest_exists(snapshots.insert(later_frame, val), frame);
}

/// After a snapshot was taken over at frame `now`, corrections are looked for exactly once: when
/// frame `now` is recorded again.
pub proof fn law_correction_is_due_once<T: Clone>(
    before: History<T>,
    after: History<T>,
    snapshots: Frames<T>,
    now: FrameNumber,
    frame: FrameNumber,
    val: T,
)
    requires
        before.correction_logging_enabled,
        snapshot_taken_over(before, after, snapshots, now),
    ensures
        diff_is_due(after, frame) <==> frame == now,
        diff_is_due(after.insert(frame, val), now),
        !diff_is_due(after.with_diff_at(None).insert(now, val), frame),
{
}

/// After a component was inserted as of a previous frame, a rollback to that frame gives it the
/// value that was inserted, and it stays alive from there on.
pub proof fn law_insertion_takes_effect<T: Clone>(
    history: History<T>,
    frame: FrameNumber,
    val: T,
    later_frame: FrameNumber,
    present: bool,
    restoration: Restoration<T>,
)
    requires
        history.frames.accepts(frame),
        frame <= later_frame,
        restores(
            history.insert_authoritative(frame, val).report_birth(frame),
            frame,
            present,
            restoration,
        ),
    ensures
        restoration.value() is Some,
        cloned(val, restoration.value()->0),
        restoration is Insert <==> !present,
        history.insert_authoritative(frame, val).report_birth(frame).alive_at(later_frame),
{
    let inserted = history.insert_authoritative(frame, val);
    law_alive_from_birth(inserted, frame, frame);
    law_alive_from_birth(inserted, frame, later_frame);
}

/// The same where the entity never had the component: a rollback to the frame inserts it.
pub proof fn law_first_insertion_takes_effect<T: Clone>(
    len: nat,
    frame: FrameNumber,
    val: T,
    later_frame: FrameNumber,
    restoration: Restoration<T>,
)
    requires
        len > 0,
        frame <= later_frame,
        restores(inserted_history(len, frame, val), frame, false, restoration),
    ensures
        restoration matches Restoration::Insert(inserted) && cloned(val, inserted),
        inserted_history(len, frame, val).alive_at(later_frame),
{
    let inserted = inserted_history(len, frame, val);
    assert(inserted.alive_ranges[0] == (frame, None::<FrameNumber>));
    assert(inserted.frames.values.contains_key(frame));
}

/// A component that was just added is in its own history: alive from this frame on, with its
/// value.
pub proof fn law_added_component_is_recorded<T>(
    len: nat,
    now: FrameNumber,
    val: T,
    correction_logging: bool,
    frame: FrameNumber,
)
    requires
        len > 0,
    ensures
        buffered_history(len, now, val, correction_logging).at(now) == Some(val),
        buffered_history(len, now, val, correction_logging).alive_at(frame) <==> now <= frame,
        buffered_history(len, now, val, correction_logging).correction_logging_enabled
            == correction_logging,
{
    let history = buffered_history(len, now, val, correction_logging);
    assert(history.alive_ranges[0] == (now, None::<FrameNumber>));
}

/// Whether an entity has a component after a frame of a rollback. If it had it before, it may have
/// been removed; if it had not, it may have been inserted again.
pub open spec fn present_after<T>(present: bool, reinserted: Option<T>, removed: bool) -> bool {
    if present {
        !removed
    } else {
        reinserted is Some
    }
}

/// At every frame of a rollback after the first, an entity ends up with a component exactly if
/// its history, as the frame leaves it, has the component alive there: an entity without it gets
/// it back with the value recorded, and an entity with it loses it. What is known of its lives
/// stays, and so do its values, except that nothing is held from the frame of a removal on.
pub proof fn law_presence_follows_life<T: Clone>(
    before: History<T>,
    after: History<T>,
    now: FrameNumber,
    present: bool,
    reinserted: Option<T>,
    removed: bool,
    other: FrameNumber,
)
    requires
        present ==> reremoves(before, after, now, removed),
        !present ==> reinserts(before, now, reinserted) && after == before,
    ensures
        present_after(present, reinserted, removed) <==> after.alive_at(now),
        !present && after.alive_at(now) ==> after.at(now) is Some && cloned(
            after.at(now)->0,
            reinserted->0,
        ),
        after.alive_at(other) <==> before.alive_at(other),
        after.at(other) == if present && !after.alive_at(now) && now <= other {
            None
        } else {
            before.at(other)
        },
{
}

/// When a frame of a rollback is come to once more, an entity with a component that was settled
/// there keeps it, one without it stays without, and the history stays as it is.
pub proof fn law_presence_is_settled<T: Clone>(
    before: History<T>,
    after: History<T>,
    again: History<T>,
    now: FrameNumber,
    present: bool,
    reinserted: Option<T>,
    removed: bool,
    reinserted_again: Option<T>,
    removed_again: bool,
)
    requires
        present ==> reremoves(before, after, now, removed),
        !present ==> reinserts(before, now, reinserted) && after == before,
        present_after(present, reinserted, removed) ==> reremoves(after, again, now, removed_again),
        !present_after(present, reinserted, removed) ==> reinserts(after, now, reinserted_again)
            && again == after,
    ensures
        present_after(
            present_after(present, reinserted, removed),
            reinserted_again,
            removed_again,
        ) == present_after(present, reinserted, removed),
        again == after,
{
    law_presence_follows_life(before, after, now, present, reinserted, removed, now);
}

/// An entity is despawned exactly when the rollback window has passed since its marker was
/// noticed: at no earlier frame, where a rollback could still bring it back. To notice the marker
/// again, when the frame is simulated again, changes nothing.
pub proof fn law_despawn_waits_for_window(
    noticed: FrameNumber,
    again: FrameNumber,
    config: TimewarpConfig,
    now: FrameNumber,
)
    ensures
        despawn_is_due(noticed_at(DespawnMarker(None), noticed), config, now) <==> now == noticed
            + config.rollback_window,
        noticed_at(noticed_at(DespawnMarker(None), noticed), again) == noticed_at(
            DespawnMarker(None),
            noticed,
        ),
{
}

/// The newest snapshot and input frames of a held-back entity never go back, and it is of no
/// importance in which order snapshots or inputs arrive.
pub proof fn law_newest_frames_only_grow(
    state: AnachronousState,
    a: FrameNumber,
    b: FrameNumber,
)
    ensures
        state.with_snapshot(a).newest_snapshot_frame >= state.newest_snapshot_frame,
        state.with_snapshot(a).newest_snapshot_frame >= a,
        state.with_snapshot(a).with_snapshot(b) == state.with_snapshot(b).with_snapshot(a),
        state.with_input(a).newest_input_frame >= state.newest_input_frame,
        state.with_input(a).newest_input_frame >= a,
        state.with_input(a).with_input(b) == state.with_input(b).with_input(a),
        state.with_snapshot(a).with_input(b) == state.with_input(b).with_snapshot(a),
{
}

} // verus!
