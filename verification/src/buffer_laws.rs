//! What calls on the buffer, the clock and the queue have to do with one another.
//!
//! Each law takes calls as they were made, with what they returned, and says how the results
//! hang together.

use vstd::prelude::*;

use crate::clock::{frames_before, later, DespawnMarker, GameClock};
use crate::frame_buffer::{lemma_newest_exists, FrameBuffer};
use crate::requests::{pending, sent, RollbackRequest, RollbackRequests};
use crate::systems::{consolidate_rollback_requests, rollback_for_frames};
use crate::timewarp::Rollback;
use crate::FrameNumber;

verus! {

/// A new buffer has no value at any frame, and as much room as was asked for.
pub proof fn law_new_buffer_is_empty<T>(
    len: usize,
    buffer: FrameBuffer<T>,
    frame: FrameNumber,
    value: Option<&T>,
    newest: FrameNumber,
)
    requires
        call_ensures(FrameBuffer::<T>::with_capacity, (len,), buffer),
        call_ensures(FrameBuffer::<T>::get, (&buffer, frame), value),
        call_ensures(FrameBuffer::<T>::newest_frame, (&buffer,), newest),
    ensures
        value is None,
        newest == 0,
        buffer@.capacity == len,
        buffer@.values =~= Map::<FrameNumber, T>::empty(),
{
    if newest > 0 {
        assert(buffer@.get(newest) is Some);
    }
}

/// A read gives exactly what the buffer holds at the frame.
pub proof fn law_read_gives_what_is_held<T>(
    buffer: &FrameBuffer<T>,
    frame: FrameNumber,
    value: Option<&T>,
)
    requires
        call_ensures(FrameBuffer::<T>::get, (buffer, frame), value),
    ensures
        value is Some <==> buffer@.values.contains_key(frame),
        value is Some ==> *value->0 == buffer@.values[frame],
        value is Some <==> buffer@.get(frame) is Some,
        value is Some ==> buffer@.get(frame) == Some(*value->0),
{
}

/// The newest frame has a value, if it is not 0, and no frame after it has one.
pub proof fn law_newest_frame_is_last_read<T>(
    buffer: &FrameBuffer<T>,
    newest: FrameNumber,
    frame: FrameNumber,
    value: Option<&T>,
)
    requires
        call_ensures(FrameBuffer::<T>::newest_frame, (buffer,), newest),
        call_ensures(FrameBuffer::<T>::get, (buffer, frame), value),
    ensures
        value is Some ==> frame <= newest,
        newest > 0 && frame == newest ==> value is Some,
        newest == buffer@.newest_frame(),
{
    if buffer@.values.contains_key(frame) {
        lemma_newest_exists(buffer@, frame);
    }
}

/// A value is stored exactly if there is room at all and the newest frame is not a whole window
/// ahead of it. It is then read back, in place of what was there. Other frames read as before,
/// except those that are a whole window behind. A value that was not stored changes nothing.
pub proof fn law_stored_value_is_read_back<T>(
    buffer: &mut FrameBuffer<T>,
    frame: FrameNumber,
    val: T,
    stored: bool,
    newest: FrameNumber,
    other: FrameNumber,
    before: Option<&T>,
    after: Option<&T>,
)
    requires
        call_ensures(FrameBuffer::<T>::newest_frame, (&*old(buffer),), newest),
        call_ensures(FrameBuffer::<T>::get, (&*old(buffer), other), before),
        call_ensures(FrameBuffer::<T>::insert, (buffer, frame, val), stored),
        call_ensures(FrameBuffer::<T>::get, (&*final(buffer), other), after),
    ensures
        stored <==> old(buffer)@.capacity > 0 && newest - frame < old(buffer)@.capacity,
        stored <==> old(buffer)@.accepts(frame),
        final(buffer)@.capacity == old(buffer)@.capacity,
        after == if !stored {
            before
        } else if other == frame {
            Some(&val)
        } else if frame - other < old(buffer)@.capacity {
            before
        } else {
            None
        },
{
    lemma_accepts_within_window(buffer, newest, frame);
}

pub(crate) proof fn lemma_accepts_within_window<T>(
    buffer: &FrameBuffer<T>,
    newest: FrameNumber,
    frame: FrameNumber,
)
    requires
        newest == buffer@.newest_frame(),
    ensures
        buffer@.accepts(frame) <==> buffer@.capacity > 0 && newest - frame < buffer@.capacity,
{
    if exists|held: FrameNumber| buffer@.values.contains_key(held) {
        let held = choose|held: FrameNumber| buffer@.values.contains_key(held);
        lemma_newest_exists(buffer@, held);
    }
}

/// Of two frames stored one after the other in a new buffer with room for `len` frames, the
/// earlier one is still there exactly if they are less than `len` apart.
pub proof fn law_buffer_reaches_back<T>(
    len: usize,
    first: &mut FrameBuffer<T>,
    second: &mut FrameBuffer<T>,
    a: FrameNumber,
    val_a: T,
    b: FrameNumber,
    val_b: T,
    stored_a: bool,
    stored_b: bool,
    value_a: Option<&T>,
    value_b: Option<&T>,
)
    requires
        len > 0,
        a < b,
        call_ensures(FrameBuffer::<T>::with_capacity, (len,), *old(first)),
        call_ensures(FrameBuffer::<T>::insert, (first, a, val_a), stored_a),
        *final(first) == *old(second),
        call_ensures(FrameBuffer::<T>::insert, (second, b, val_b), stored_b),
        call_ensures(FrameBuffer::<T>::get, (&*final(second), a), value_a),
        call_ensures(FrameBuffer::<T>::get, (&*final(second), b), value_b),
    ensures
        stored_a && stored_b,
        value_b == Some(&val_b),
        value_a == if b - a < len {
            Some(&val_a)
        } else {
            None
        },
{
}

/// After `clear` nothing is read at any frame; the room is what it was.
pub proof fn law_cleared_buffer_is_empty<T>(
    buffer: &mut FrameBuffer<T>,
    frame: FrameNumber,
    value: Option<&T>,
)
    requires
        call_ensures(FrameBuffer::<T>::clear, (buffer,), ()),
        call_ensures(FrameBuffer::<T>::get, (&*final(buffer), frame), value),
    ensures
        value is None,
        final(buffer)@.capacity == old(buffer)@.capacity,
{
}

/// After the entries newer than a frame were removed, that frame and those before it read as
/// they did, and nothing is read after it.
pub proof fn law_newer_entries_are_gone<T>(
    buffer: &mut FrameBuffer<T>,
    frame: FrameNumber,
    other: FrameNumber,
    before: Option<&T>,
    after: Option<&T>,
)
    requires
        call_ensures(FrameBuffer::<T>::get, (&*old(buffer), other), before),
        call_ensures(FrameBuffer::<T>::remove_entries_newer_than, (buffer, frame), ()),
        call_ensures(FrameBuffer::<T>::get, (&*final(buffer), other), after),
    ensures
        after == if other <= frame {
            before
        } else {
            None
        },
        final(buffer)@.capacity == old(buffer)@.capacity,
{
}

/// A clock starts at 0 and shows the frame that it was set to.
pub proof fn law_clock_shows_what_was_set(
    new: GameClock,
    start: FrameNumber,
    clock: &mut GameClock,
    frame: FrameNumber,
    shown: FrameNumber,
)
    requires
        call_ensures(GameClock::new, (), new),
        call_ensures(GameClock::frame, (&new,), start),
        call_ensures(GameClock::set, (clock, frame), ()),
        call_ensures(GameClock::frame, (&*final(clock),), shown),
    ensures
        start == 0,
        shown == frame,
{
}

/// A new marker was not noticed yet.
pub proof fn law_new_marker_has_no_frame(marker: DespawnMarker)
    requires
        call_ensures(DespawnMarker::new, (), marker),
    ensures
        marker.0 is None,
{
}

/// To go back a number of frames and forward again leads to the same frame, unless that would
/// have been before frame 0: then one goes back to 0.
pub proof fn law_back_and_forward(frame: FrameNumber, count: FrameNumber)
    ensures
        count <= frame ==> frames_before(frame, count) + count == frame,
        count >= frame ==> frames_before(frame, count) == 0,
{
}

/// The later of two frames is one of them, and is not before the other.
pub proof fn law_later_frame(a: FrameNumber, b: FrameNumber)
    ensures
        later(a, b) == a || later(a, b) == b,
        later(a, b) >= a,
        later(a, b) >= b,
{
}

/// The rollback for some requested frames goes to one of them, and to none later than any other.
/// It ends at the present. Without a request there is none.
pub proof fn law_rollback_goes_to_smallest_frame(
    frames: &Vec<FrameNumber>,
    clock: &GameClock,
    now: FrameNumber,
    rollback: Option<Rollback>,
    i: int,
)
    requires
        call_ensures(GameClock::frame, (clock,), now),
        call_ensures(rollback_for_frames, (frames, clock), rollback),
        0 <= i < frames@.len(),
    ensures
        rollback is Some,
        rollback->0.range.start <= frames@[i],
        exists|j: int|
            0 <= j < frames@.len() && rollback->0.range.start == #[trigger] frames@[j],
        rollback->0.range.end == now,
        rollback->0.original_period is None,
{
}

/// Without a requested frame there is no rollback.
pub proof fn law_no_frame_no_rollback(
    frames: &Vec<FrameNumber>,
    clock: &GameClock,
    rollback: Option<Rollback>,
)
    requires
        call_ensures(rollback_for_frames, (frames, clock), rollback),
        frames@.len() == 0,
    ensures
        rollback is None,
{
    if let Some(rollback) = rollback {
        assert(frames@.contains(rollback.range.start));
    }
}

/// Consolidation goes to one of the frames that wait, to none later than any other, and up to the
/// present.
pub proof fn law_consolidation_covers_each_request(
    queue: &mut RollbackRequests,
    clock: &GameClock,
    now: FrameNumber,
    rollback: Option<Rollback>,
    i: int,
)
    requires
        call_ensures(GameClock::frame, (clock,), now),
        call_ensures(consolidate_rollback_requests, (queue, clock), rollback),
        0 <= i < pending(*old(queue)).len(),
    ensures
        rollback is Some,
        rollback->0.range.start <= pending(*old(queue))[i],
        exists|j: int|
            0 <= j < pending(*old(queue)).len() && rollback->0.range.start == #[trigger] pending(
                *old(queue),
            )[j],
        rollback->0.range.end == now,
        rollback->0.original_period is None,
{
}

/// A new queue asks for no rollback and takes requests.
pub proof fn law_new_queue_asks_for_nothing(
    queue: &mut RollbackRequests,
    clock: &GameClock,
    room: bool,
    rollback: Option<Rollback>,
)
    requires
        call_ensures(RollbackRequests::new, (), *old(queue)),
        call_ensures(RollbackRequests::check_room, (&*old(queue),), room),
        call_ensures(consolidate_rollback_requests, (queue, clock), rollback),
    ensures
        room,
        rollback is None,
        pending(*old(queue)).len() == 0,
        sent(*old(queue)) == 0,
{
    if let Some(rollback) = rollback {
        assert(pending(*old(queue)).contains(rollback.range.start));
    }
}

/// A request that is sent comes on top of those that wait: if they would have led to a rollback,
/// it now goes to the earlier one of its frame and the new one; if not, it goes to the new one.
pub proof fn law_sent_request_is_consolidated(
    without: &mut RollbackRequests,
    queue: &mut RollbackRequests,
    with: &mut RollbackRequests,
    clock: &GameClock,
    frame: FrameNumber,
    earlier: Option<Rollback>,
    rollback: Option<Rollback>,
)
    requires
        *old(without) == *old(queue),
        call_ensures(consolidate_rollback_requests, (without, clock), earlier),
        call_ensures(RollbackRequests::send, (queue, RollbackRequest(frame)), ()),
        *final(queue) == *old(with),
        call_ensures(consolidate_rollback_requests, (with, clock), rollback),
    ensures
        rollback is Some,
        rollback->0.range.start == if earlier is Some && earlier->0.range.start < frame {
            earlier->0.range.start
        } else {
            frame
        },
        pending(*final(queue)) == pending(*old(queue)).push(frame),
        sent(*final(queue)) == sent(*old(queue)) + 1,
{
    let before = pending(*old(queue));
    let after = pending(*old(with));
    assert(after == before.push(frame));
    assert(after[before.len() as int] == frame);
    let start = rollback->0.range.start;
    assert(after.contains(start));
    let j = choose|j: int| 0 <= j < after.len() && after[j] == start;
    if let Some(earlier) = earlier {
        assert(before.contains(earlier.range.start));
        let i = choose|i: int| 0 <= i < before.len() && before[i] == earlier.range.start;
        assert(after[i] == earlier.range.start);
        if j < before.len() {
            assert(before[j] == start);
        }
    }
}

/// Consolidated requests are gone: to consolidate once more gives no rollback. Ids are not given
/// out twice for that.
pub proof fn law_requests_are_consolidated_once(
    queue: &mut RollbackRequests,
    again: &mut RollbackRequests,
    clock: &GameClock,
    rollback: Option<Rollback>,
    second: Option<Rollback>,
)
    requires
        call_ensures(consolidate_rollback_requests, (queue, clock), rollback),
        *final(queue) == *old(again),
        call_ensures(consolidate_rollback_requests, (again, clock), second),
    ensures
        second is None,
        sent(*final(queue)) == sent(*old(queue)),
{
    if let Some(second) = second {
        assert(pending(*old(again)).contains(second.range.start));
    }
}

/// There is room for a request exactly as long as an id is left for it.
pub proof fn law_room_lasts_as_long_as_ids(queue: &RollbackRequests, room: bool)
    requires
        call_ensures(RollbackRequests::check_room, (queue,), room),
    ensures
        room <==> sent(*queue) < usize::MAX,
        room <==> queue.has_room(),
{
}

} // verus!
