//! What is remembered of a component: its recent values, the frames at which it was alive, and
//! the values received for it from the server.

use bevy::ecs::entity::Entity;
use std::ops::Range;
use vstd::prelude::*;

use crate::clock::later;
use crate::frame_buffer::{FrameBuffer, Frames};
use crate::FrameNumber;

verus! {

/// `bevy::ecs::entity::Entity`, the identifier of an entity. It is handed on and never looked
/// into.
#[verifier::external_type_specification]
#[verifier::external_body]
pub struct ExEntity(bevy::ecs::entity::Entity);

/// Tells that an entity is shown in the past, as the server's snapshots have it.
#[derive(Debug)]
pub struct Anachronous {
    /// How many frames in the past.
    pub frames_behind: FrameNumber,
    newest_snapshot_frame: FrameNumber,
    newest_input_frame: FrameNumber,
}

/// What an [`Anachronous`] holds.
pub struct AnachronousState {
    pub frames_behind: FrameNumber,
    /// The frame of the last snapshot from the server.
    pub newest_snapshot_frame: FrameNumber,
    /// The frame of the most recent input command.
    pub newest_input_frame: FrameNumber,
}

impl View for Anachronous {
    type V = AnachronousState;

    closed spec fn view(&self) -> AnachronousState {
        AnachronousState {
            frames_behind: self.frames_behind,
            newest_snapshot_frame: self.newest_snapshot_frame,
            newest_input_frame: self.newest_input_frame,
        }
    }
}

impl Anachronous {
    /// An entity that is `frames_behind` frames in the past, with no snapshot and no input yet.
    pub fn new(frames_behind: FrameNumber) -> (anachronous: Self)
        ensures
            anachronous@ == (AnachronousState {
                frames_behind,
                newest_snapshot_frame: 0,
                newest_input_frame: 0,
            }),
    {
        Anachronous { frames_behind, newest_snapshot_frame: 0, newest_input_frame: 0 }
    }

    pub(crate) fn frames_behind(&self) -> (frames: FrameNumber)
        ensures
            frames == self@.frames_behind,
    {
        self.frames_behind
    }

    /// The frame of the last snapshot from the server.
    pub fn newest_snapshot_frame(&self) -> (frame: FrameNumber)
        ensures
            frame == self@.newest_snapshot_frame,
    {
        self.newest_snapshot_frame
    }

    /// The frame of the most recent input command.
    pub fn newest_input_frame(&self) -> (frame: FrameNumber)
        ensures
            frame == self@.newest_input_frame,
    {
        self.newest_input_frame
    }

    /// Notes a snapshot of `newest_frame`; tells whether it is newer than all before it.
    pub fn set_newest_snapshot_frame(&mut self, newest_frame: FrameNumber) -> (newer: bool)
        ensures
            newer == (newest_frame > old(self)@.newest_snapshot_frame),
            final(self)@ == old(self)@.with_snapshot(newest_frame),
    {
        if newest_frame > self.newest_snapshot_frame {
            self.newest_snapshot_frame = newest_frame;
            true
        } else {
            false
        }
    }

    /// Notes an input of `newest_frame`; tells whether it is newer than all before it.
    pub fn set_newest_input_frame(&mut self, newest_frame: FrameNumber) -> (newer: bool)
        ensures
            newer == (newest_frame > old(self)@.newest_input_frame),
            final(self)@ == old(self)@.with_input(newest_frame),
    {
        if newest_frame > self.newest_input_frame {
            self.newest_input_frame = newest_frame;
            true
        } else {
            false
        }
    }
}

impl Clone for Anachronous {
    fn clone(&self) -> (anachronous: Self)
        ensures
            anachronous@ == self@,
    {
        Anachronous {
            frames_behind: self.frames_behind,
            newest_snapshot_frame: self.newest_snapshot_frame,
            newest_input_frame: self.newest_input_frame,
        }
    }
}

impl AnachronousState {
    /// After a snapshot of `frame`.
    pub open spec fn with_snapshot(self, frame: FrameNumber) -> Self {
        AnachronousState { newest_snapshot_frame: later(frame, self.newest_snapshot_frame), ..self }
    }

    /// After an input of `frame`.
    pub open spec fn with_input(self, frame: FrameNumber) -> Self {
        AnachronousState { newest_input_frame: later(frame, self.newest_input_frame), ..self }
    }
}

/// How many rollbacks there were.
#[derive(Debug)]
pub struct RollbackStats {
    pub num_rollbacks: u64,
}

impl Default for RollbackStats {
    fn default() -> (stats: Self)
        ensures
            stats.num_rollbacks == 0,
    {
        RollbackStats { num_rollbacks: 0 }
    }
}

/// The time between two fixed updates: whole seconds, and nanoseconds on top of them.
#[derive(Debug, Clone, Copy, PartialEq, Eq, Structural)]
pub struct Period {
    pub secs: u64,
    pub nanos: u32,
}

impl Period {
    /// No time at all: updates follow one another at full speed.
    pub open spec fn is_zero(self) -> bool {
        self.secs == 0 && self.nanos == 0
    }

    /// The period of length 0.
    pub fn zero() -> (period: Self)
        ensures
            period.is_zero(),
    {
        Period { secs: 0, nanos: 0 }
    }
}

/// A rollback that is under way.
#[derive(Debug)]
pub struct Rollback {
    /// The frames to simulate again; the start is the frame to roll back to.
    pub range: Range<FrameNumber>,
    /// The period of the fixed update as it was before the rollback, for when it is over.
    /// (During a rollback the period is zero, to simulate at full speed.)
    pub original_period: Option<Period>,
}

impl Rollback {
    /// `frame` is one of those to simulate again.
    pub open spec fn spec_contains(self, frame: FrameNumber) -> bool {
        self.range.start <= frame < self.range.end
    }

    /// Under way, with the fixed update's period as it was.
    pub open spec fn started(self, period: Period) -> Self {
        Rollback { original_period: Some(period), ..self }
    }

    /// The range start..end holds all frames with start <= frame < end. It is empty if
    /// start >= end.
    pub fn new(start: FrameNumber, end: FrameNumber) -> (rollback: Self)
        ensures
            rollback.range.start == start,
            rollback.range.end == end,
            rollback.original_period is None,
    {
        Rollback { range: Range { start, end }, original_period: None }
    }
}

impl Clone for Rollback {
    fn clone(&self) -> (rollback: Self)
        ensures
            rollback == *self,
    {
        Rollback {
            range: Range { start: self.range.start, end: self.range.end },
            original_period: self.original_period,
        }
    }
}

/// The last rollback that came to its end.
#[derive(Debug)]
pub struct PreviousRollback(pub Rollback);

/// From the frame of a birth up to the frame of the death that follows it, which is the first
/// frame without the component. Without a death the range is open-ended.
pub type FrameRange = (FrameNumber, Option<FrameNumber>);

/// `frame` lies in `range`.
pub open spec fn in_range(range: FrameRange, frame: FrameNumber) -> bool {
    range.0 <= frame && match range.1 {
        Some(end) => frame < end,
        None => true,
    }
}

/// `frame` lies in one of `ranges`.
pub open spec fn alive_in(ranges: Seq<FrameRange>, frame: FrameNumber) -> bool {
    exists|i: int| 0 <= i < ranges.len() && in_range(#[trigger] ranges[i], frame)
}

/// A component to insert as of an older frame. This takes a rollback to that frame.
#[derive(Debug)]
pub struct InsertComponentAtFrame<T> {
    pub component: T,
    pub frame: FrameNumber,
}

impl<T> InsertComponentAtFrame<T> {
    /// `component`, to insert as of `frame`.
    pub fn new(frame: FrameNumber, component: T) -> (insertion: Self)
        ensures
            insertion.frame == frame,
            insertion.component == component,
    {
        InsertComponentAtFrame { component, frame }
    }
}

/// The values of a component before and after a rollback that made it snap: the two differ.
/// Meant for visual smoothing.
#[derive(Debug)]
pub struct TimewarpCorrection<T> {
    pub before: T,
    pub after: T,
    pub frame: FrameNumber,
}

impl<T: Clone> Clone for TimewarpCorrection<T> {
    fn clone(&self) -> (correction: Self)
        ensures
            cloned(self.before, correction.before),
            cloned(self.after, correction.after),
            correction.frame == self.frame,
    {
        TimewarpCorrection {
            before: self.before.clone(),
            after: self.after.clone(),
            frame: self.frame,
        }
    }
}

/// The last few authoritative values received from the server.
pub struct ServerSnapshot<T> {
    pub values: FrameBuffer<T>,
}

impl<T> View for ServerSnapshot<T> {
    type V = Frames<T>;

    open spec fn view(&self) -> Frames<T> {
        self.values@
    }
}

impl<T> ServerSnapshot<T> {
    /// No values yet; room for `len` frames.
    pub fn with_capacity(len: usize) -> (snapshot: Self)
        ensures
            snapshot@ == Frames::<T>::empty(len as nat),
    {
        ServerSnapshot { values: FrameBuffer::with_capacity(len) }
    }

    /// The value received for `frame`.
    pub fn at_frame(&self, frame: FrameNumber) -> (value: Option<&T>)
        ensures
            match value {
                Some(value) => self@.get(frame) == Some(*value),
                None => self@.get(frame) is None,
            },
    {
        self.values.get(frame)
    }

    /// Stores the value received for `frame`; one that is too old is dropped.
    pub fn insert(&mut self, frame: FrameNumber, val: T)
        ensures
            final(self)@ == old(self)@.insert(frame, val),
            final(self)@.valid(),
    {
        self.values.insert(frame, val);
    }
}

/// What a [`ComponentHistory`] holds.
#[verifier::ext_equal]
pub struct History<T> {
    pub frames: Frames<T>,
    pub alive_ranges: Seq<FrameRange>,
    pub diff_at_frame: Option<FrameNumber>,
    pub correction_logging_enabled: bool,
    pub most_recent_authoritative_frame: FrameNumber,
}

impl<T> History<T> {
    /// The history of a component born at `birth_frame`, with no value recorded.
    pub open spec fn born(len: nat, birth_frame: FrameNumber) -> Self {
        History {
            frames: Frames::empty(len),
            alive_ranges: seq![(birth_frame, None)],
            diff_at_frame: None,
            correction_logging_enabled: false,
            most_recent_authoritative_frame: 0,
        }
    }

    /// The component is alive at `frame`.
    pub open spec fn alive_at(self, frame: FrameNumber) -> bool {
        alive_in(self.alive_ranges, frame)
    }

    /// The value recorded at `frame`.
    pub open spec fn at(self, frame: FrameNumber) -> Option<T> {
        self.frames.get(frame)
    }

    /// With corrections logged.
    pub open spec fn with_correction_logging(self) -> Self {
        History { correction_logging_enabled: true, ..self }
    }

    /// With the frame to compare at.
    pub open spec fn with_diff_at(self, diff_at_frame: Option<FrameNumber>) -> Self {
        History { diff_at_frame, ..self }
    }

    /// With `val` recorded at `frame`.
    pub open spec fn insert(self, frame: FrameNumber, val: T) -> Self {
        History { frames: self.frames.insert(frame, val), ..self }
    }

    /// With the server's `val` recorded at `frame`.
    pub open spec fn insert_authoritative(self, frame: FrameNumber, val: T) -> Self {
        History {
            frames: self.frames.insert(frame, val),
            most_recent_authoritative_frame: frame,
            ..self
        }
    }

    /// Without the values of `frame` and all later frames.
    pub open spec fn remove_frame_and_beyond(self, frame: FrameNumber) -> Self {
        History { frames: self.frames.before(frame as int), ..self }
    }

    /// With a birth at `frame`.
    pub open spec fn report_birth(self, frame: FrameNumber) -> Self {
        History { alive_ranges: self.alive_ranges.push((frame, None)), ..self }
    }

    /// With the last birth's death at `frame`.
    pub open spec fn report_death(self, frame: FrameNumber) -> Self {
        History {
            alive_ranges: self.alive_ranges.drop_last().push(
                (self.alive_ranges.last().0, Some(frame)),
            ),
            ..self
        }
    }
}

/// The values of a component over the last few frames, and when it was alive.
pub struct ComponentHistory<T> {
    pub values: FrameBuffer<T>,
    pub alive_ranges: Vec<FrameRange>,
    /// When a value is recorded at this frame, it is compared with the one that the buffer
    /// already holds. This is for visual smoothing after a rollback. (A perfect simulation
    /// arrives at the same value again.)
    pub diff_at_frame: Option<FrameNumber>,
    pub correction_logging_enabled: bool,
    /// The frame of the authoritative value that was handed over last; 0 if none was.
    pub most_recent_authoritative_frame: FrameNumber,
}

impl<T> View for ComponentHistory<T> {
    type V = History<T>;

    open spec fn view(&self) -> History<T> {
        History {
            frames: self.values@,
            alive_ranges: self.alive_ranges@,
            diff_at_frame: self.diff_at_frame,
            correction_logging_enabled: self.correction_logging_enabled,
            most_recent_authoritative_frame: self.most_recent_authoritative_frame,
        }
    }
}

impl<T> ComponentHistory<T> {
    /// The history of a component born at `birth_frame`, with room for `len` frames.
    pub fn with_capacity(len: usize, birth_frame: FrameNumber) -> (history: Self)
        ensures
            history@ == History::<T>::born(len as nat, birth_frame),
    {
        let mut this = ComponentHistory {
            values: FrameBuffer::with_capacity(len),
            alive_ranges: Vec::new(),
            diff_at_frame: None,
            correction_logging_enabled: false,
            most_recent_authoritative_frame: 0,
        };
        this.report_birth_at_frame(birth_frame);
        this
    }

    /// Has corrections computed when the component snaps.
    pub fn enable_correction_logging(&mut self)
        ensures
            final(self)@ == old(self)@.with_correction_logging(),
    {
        self.correction_logging_enabled = true;
    }

    /// The value recorded at `frame`.
    pub fn at_frame(&self, frame: FrameNumber) -> (value: Option<&T>)
        ensures
            match value {
                Some(value) => self@.at(frame) == Some(*value),
                None => self@.at(frame) is None,
            },
    {
        self.values.get(frame)
    }

    /// Records `val` at `frame`. The entity is named for diagnostics and plays no part in it.
    pub fn insert(&mut self, frame: FrameNumber, val: T, _entity: &Entity)
        ensures
            final(self)@ == old(self)@.insert(frame, val),
            final(self)@.frames.valid(),
    {
        self.values.insert(frame, val);
    }

    /// Records the server's value for `frame`. The entity is named for diagnostics and plays no
    /// part in it.
    pub fn insert_authoritative(&mut self, frame: FrameNumber, val: T, _entity: &Entity)
        ensures
            final(self)@ == old(self)@.insert_authoritative(frame, val),
            final(self)@.frames.valid(),
    {
        self.values.insert(frame, val);
        self.most_recent_authoritative_frame = frame;
    }

    /// Removes the values buffered for this frame, and greater frames.
    pub fn remove_frame_and_beyond(&mut self, frame: FrameNumber)
        ensures
            final(self)@ == old(self)@.remove_frame_and_beyond(frame),
            final(self)@.frames.valid(),
    {
        if frame == 0 {
            self.values.clear();
        } else {
            self.values.remove_entries_newer_than(frame - 1);
        }
    }

    /// Whether the component is alive at `frame`.
    pub fn alive_at_frame(&self, frame: FrameNumber) -> (alive: bool)
        ensures
            alive == self@.alive_at(frame),
    {
        let mut i: usize = 0;
        while i < self.alive_ranges.len()
            invariant
                i <= self.alive_ranges@.len(),
                forall|j: int|
                    0 <= j < i ==> !in_range(#[trigger] self.alive_ranges@[j], frame),
            decreases self.alive_ranges@.len() - i,
        {
            let (start, maybe_end) = self.alive_ranges[i];
            let ended = match maybe_end {
                Some(end) => end <= frame,
                None => false,
            };
            if start <= frame && !ended {
                assert(in_range(self.alive_ranges@[i as int], frame));
                return true;
            }
            i = i + 1;
        }
        false
    }

    /// The component is alive from `frame` on.
    pub fn report_birth_at_frame(&mut self, frame: FrameNumber)
        ensures
            final(self)@ == old(self)@.report_birth(frame),
    {
        self.alive_ranges.push((frame, None));
    }

    /// The component that was born last is not alive any more from `frame` on.
    pub fn report_death_at_frame(&mut self, frame: FrameNumber)
        requires
            old(self)@.alive_ranges.len() > 0,
        ensures
            final(self)@ == old(self)@.report_death(frame),
    {
        let last: usize = self.alive_ranges.len() - 1;
        let (start, _) = self.alive_ranges[last];
        self.alive_ranges.set(last, (start, Some(frame)));
        assert(self@ =~= old(self)@.report_death(frame));
    }
}

} // verus!
