//! A bounded buffer of values by frame.

use std::collections::VecDeque;
use vstd::prelude::*;

use crate::FrameNumber;

verus! {

/// What a [`FrameBuffer`] holds: a value for some frames, all of them within one window of
/// `capacity` consecutive frames.
#[verifier::ext_equal]
pub struct Frames<T> {
    pub capacity: nat,
    pub values: Map<FrameNumber, T>,
}

impl<T> Frames<T> {
    /// No value at any frame.
    pub open spec fn empty(capacity: nat) -> Self {
        Frames { capacity, values: Map::empty() }
    }

    /// Any two frames that hold a value are less than `capacity` apart.
    pub open spec fn valid(self) -> bool {
        forall|a: FrameNumber, b: FrameNumber| #[trigger]
            self.values.contains_key(a) && #[trigger] self.values.contains_key(b) ==> a - b
                < self.capacity
    }

    /// The value at `frame`, if there is one.
    pub open spec fn get(self, frame: FrameNumber) -> Option<T> {
        if self.values.contains_key(frame) {
            Some(self.values[frame])
        } else {
            None
        }
    }

    /// `frame` holds a value, and no later frame does.
    pub open spec fn is_newest(self, frame: FrameNumber) -> bool {
        &&& self.values.contains_key(frame)
        &&& forall|other: FrameNumber| #[trigger]
            self.values.contains_key(other) ==> other <= frame
    }

    /// The latest frame that holds a value; 0 where none does.
    pub open spec fn newest_frame(self) -> FrameNumber {
        if exists|frame: FrameNumber| self.is_newest(frame) {
            choose|frame: FrameNumber| self.is_newest(frame)
        } else {
            0
        }
    }

    /// A value can still be stored at `frame`: it is not `capacity` or more frames older than
    /// one that is held.
    pub open spec fn accepts(self, frame: FrameNumber) -> bool {
        &&& self.capacity > 0
        &&& forall|held: FrameNumber| #[trigger]
            self.values.contains_key(held) ==> held - frame < self.capacity
    }

    /// `value` stored at `frame`, if it is accepted; frames that fall out of the window are
    /// forgotten.
    pub open spec fn insert(self, frame: FrameNumber, value: T) -> Self {
        if self.accepts(frame) {
            let all = self.values.insert(frame, value);
            Frames {
                capacity: self.capacity,
                values: Map::new(
                    |held: FrameNumber| all.contains_key(held) && frame - held < self.capacity,
                    |held: FrameNumber| all[held],
                ),
            }
        } else {
            self
        }
    }

    /// What is left when only the frames below `end` are kept.
    pub open spec fn before(self, end: int) -> Self {
        Frames {
            capacity: self.capacity,
            values: Map::new(
                |held: FrameNumber| self.values.contains_key(held) && held < end,
                |held: FrameNumber| self.values[held],
            ),
        }
    }
}

/// `newest_frame` is the one frame that `is_newest` describes.
pub proof fn lemma_newest_frame<T>(frames: Frames<T>, frame: FrameNumber)
    requires
        frames.is_newest(frame),
    ensures
        frames.newest_frame() == frame,
{
    let chosen = choose|other: FrameNumber| frames.is_newest(other);
    assert(frames.is_newest(chosen));
    assert(chosen <= frame && frame <= chosen);
}

/// Where some frame holds a value, there is a newest one.
pub proof fn lemma_newest_exists<T>(frames: Frames<T>, held: FrameNumber)
    requires
        frames.values.contains_key(held),
    ensures
        frames.is_newest(frames.newest_frame()),
        held <= frames.newest_frame(),
    decreases FrameNumber::MAX - held,
{
    if frames.is_newest(held) {
        lemma_newest_frame(frames, held);
    } else {
        let later = choose|later: FrameNumber| #[trigger]
            frames.values.contains_key(later) && later > held;
        lemma_newest_exists(frames, later);
    }
}

/// Values by frame, for the last `capacity` frames.
pub struct FrameBuffer<T> {
    /// One slot for each of a run of consecutive frames, the latest first. A frame inside the
    /// run without a value has an empty slot; the first slot is never empty.
    slots: VecDeque<Option<T>>,
    /// The frame of the first slot.
    front_frame: FrameNumber,
    capacity: usize,
}

/// The value in the slot of `frame`, where the first slot belongs to `front`.
spec fn slot<T>(slots: Seq<Option<T>>, front: int, frame: int) -> Option<T> {
    if 0 <= front - frame < slots.len() {
        slots[front - frame]
    } else {
        None
    }
}

/// The frames that the slots stand for.
spec fn frames_of<T>(slots: Seq<Option<T>>, front: int, capacity: nat) -> Frames<T> {
    Frames {
        capacity,
        values: Map::new(
            |frame: FrameNumber| slot(slots, front, frame as int) is Some,
            |frame: FrameNumber| slot(slots, front, frame as int)->0,
        ),
    }
}

spec fn slots_valid<T>(slots: Seq<Option<T>>, front: int, capacity: nat) -> bool {
    &&& slots.len() <= capacity
    &&& slots.len() <= front + 1
    &&& slots.len() > 0 ==> slots[0] is Some
}

proof fn lemma_slots_valid<T>(slots: Seq<Option<T>>, front: FrameNumber, capacity: nat)
    requires
        slots_valid(slots, front as int, capacity),
    ensures
        frames_of(slots, front as int, capacity).valid(),
        slots.len() > 0 ==> frames_of(slots, front as int, capacity).is_newest(front),
        slots.len() == 0 ==> frames_of(slots, front as int, capacity) == Frames::<T>::empty(
            capacity,
        ),
        frames_of(slots, front as int, capacity).newest_frame() == if slots.len() > 0 {
            front
        } else {
            0
        },
{
    let frames = frames_of(slots, front as int, capacity);
    if slots.len() > 0 {
        assert(slot(slots, front as int, front as int) is Some);
        lemma_newest_frame(frames, front);
    }
}

impl<T> View for FrameBuffer<T> {
    type V = Frames<T>;

    closed spec fn view(&self) -> Frames<T> {
        frames_of(self.slots@, self.front_frame as int, self.capacity as nat)
    }
}

impl<T> FrameBuffer<T> {
    #[verifier::type_invariant]
    spec fn inv(self) -> bool {
        slots_valid(self.slots@, self.front_frame as int, self.capacity as nat)
    }

    /// A buffer with no values in it.
    pub fn with_capacity(len: usize) -> (buffer: Self)
        ensures
            buffer@ == Frames::<T>::empty(len as nat),
            buffer@.valid(),
    {
        let buffer = FrameBuffer { slots: VecDeque::new(), front_frame: 0, capacity: len };
        proof {
            lemma_slots_valid(buffer.slots@, 0, len as nat);
        }
        buffer
    }

    /// The latest frame with a value, or 0 if there is none.
    pub fn newest_frame(&self) -> (frame: FrameNumber)
        ensures
            frame == self@.newest_frame(),
            frame > 0 ==> self@.get(frame) is Some,
            self@.valid(),
    {
        proof {
            use_type_invariant(self);
            lemma_slots_valid(self.slots@, self.front_frame, self.capacity as nat);
        }
        if self.slots.len() == 0 {
            0
        } else {
            self.front_frame
        }
    }

    /// The value at `frame`, if the buffer holds one.
    pub fn get(&self, frame: FrameNumber) -> (value: Option<&T>)
        ensures
            match value {
                Some(value) => self@.get(frame) == Some(*value),
                None => self@.get(frame) is None,
            },
            self@.valid(),
    {
        proof {
            use_type_invariant(self);
            lemma_slots_valid(self.slots@, self.front_frame, self.capacity as nat);
        }
        if frame > self.front_frame {
            return None;
        }
        let back: usize = (self.front_frame - frame) as usize;
        if back >= self.slots.len() {
            return None;
        }
        match &self.slots[back] {
            Some(value) => Some(value),
            None => None,
        }
    }

    /// Stores `val` at `frame`, in place of what was there, and forgets the frames that fall out
    /// of the window. Refuses a frame that is itself too old for the window; returns whether the
    /// value was stored.
    pub fn insert(&mut self, frame: FrameNumber, val: T) -> (stored: bool)
        ensures
            final(self)@ == old(self)@.insert(frame, val),
            stored == old(self)@.accepts(frame),
            final(self)@.valid(),
    {
        proof {
            use_type_invariant(&*self);
            lemma_slots_valid(self.slots@, self.front_frame, self.capacity as nat);
        }
        let capacity = self.capacity;
        let front = self.front_frame;
        if capacity == 0 {
            return false;
        }
        let held: usize = self.slots.len();
        if held > 0 && frame <= front && (front - frame) as usize >= capacity {
            assert(self@.values.contains_key(front));
            return false;
        }
        let mut slots: VecDeque<Option<T>> = VecDeque::new();
        std::mem::swap(&mut slots, &mut self.slots);
        let ghost before = slots@;
        let mut new_front: FrameNumber = front;
        if held == 0 {
            slots.push_front(Some(val));
            new_front = frame;
        } else if frame > front {
            new_front = frame;
            if (frame - front) as usize >= capacity {
                slots.clear();
            } else {
                push_gap_in_front(&mut slots, (frame - front - 1) as usize);
            }
            slots.push_front(Some(val));
            slots.truncate(capacity);
        } else {
            let back: usize = (front - frame) as usize;
            if back < held {
                slots.remove(back);
                slots.insert(back, Some(val));
            } else {
                push_gap_behind(&mut slots, back - held);
                slots.push_back(Some(val));
            }
        }
        proof {
            lemma_slots_valid(slots@, new_front, capacity as nat);
            let old_frames = frames_of(before, front as int, capacity as nat);
            let new_frames = frames_of(slots@, new_front as int, capacity as nat);
            assert(old_frames.accepts(frame));
            assert(new_frames =~= old_frames.insert(frame, val));
        }
        self.front_frame = new_front;
        self.slots = slots;
        true
    }

    /// Removes all values.
    pub fn clear(&mut self)
        ensures
            final(self)@ == Frames::<T>::empty(old(self)@.capacity),
            final(self)@.valid(),
    {
        self.slots = VecDeque::new();
        proof {
            lemma_slots_valid(self.slots@, self.front_frame, self.capacity as nat);
        }
    }

    /// Removes the values of all frames after `frame`.
    pub fn remove_entries_newer_than(&mut self, frame: FrameNumber)
        ensures
            final(self)@ == old(self)@.before(frame + 1),
            final(self)@.valid(),
    {
        proof {
            use_type_invariant(&*self);
        }
        let mut slots: VecDeque<Option<T>> = VecDeque::new();
        std::mem::swap(&mut slots, &mut self.slots);
        let ghost all = frames_of(slots@, self.front_frame as int, self.capacity as nat);
        let mut front: FrameNumber = self.front_frame;
        let capacity: usize = self.capacity;
        let ghost kept = all.before(frame + 1);
        while slots.len() > 0 && (front > frame || slots[0].is_none())
            invariant
                slots@.len() <= capacity,
                slots@.len() <= front + 1,
                frames_of(slots@, front as int, capacity as nat).before(frame + 1) == kept,
            decreases slots@.len(),
        {
            let ghost earlier = slots@;
            slots.pop_front();
            if front > 0 {
                front = front - 1;
                assert(frames_of(slots@, front as int, capacity as nat).before(frame + 1) =~= kept) by {
                    assert forall|f: FrameNumber| f <= frame implies slot(
                        slots@,
                        front as int,
                        f as int,
                    ) == slot(earlier, front + 1, f as int) by {}
                }
            } else {
                assert(frames_of(slots@, front as int, capacity as nat).before(frame + 1) =~= kept);
            }
        }
        proof {
            lemma_slots_valid(slots@, front, capacity as nat);
            assert(frames_of(slots@, front as int, capacity as nat) =~= kept);
        }
        self.front_frame = front;
        self.slots = slots;
    }
}

/// Puts `count` empty slots in front.
fn push_gap_in_front<T>(slots: &mut VecDeque<Option<T>>, count: usize)
    ensures
        final(slots)@.len() == old(slots)@.len() + count,
        forall|i: int| 0 <= i < count ==> final(slots)@[i] is None,
        forall|i: int|
            count <= i < final(slots)@.len() ==> final(slots)@[i] == old(slots)@[i - count],
{
    let mut added: usize = 0;
    while added < count
        invariant
            added <= count,
            slots@.len() == old(slots)@.len() + added,
            forall|i: int| 0 <= i < added ==> slots@[i] is None,
            forall|i: int| added <= i < slots@.len() ==> slots@[i] == old(slots)@[i - added],
        decreases count - added,
    {
        slots.push_front(None);
        added = added + 1;
    }
}

/// Puts `count` empty slots behind the last one.
fn push_gap_behind<T>(slots: &mut VecDeque<Option<T>>, count: usize)
    ensures
        final(slots)@.len() == old(slots)@.len() + count,
        forall|i: int| 0 <= i < old(slots)@.len() ==> final(slots)@[i] == old(slots)@[i],
        forall|i: int| old(slots)@.len() <= i < final(slots)@.len() ==> final(slots)@[i] is None,
{
    let mut added: usize = 0;
    while added < count
        invariant
            added <= count,
            slots@.len() == old(slots)@.len() + added,
            forall|i: int| 0 <= i < old(slots)@.len() ==> slots@[i] == old(slots)@[i],
            forall|i: int| old(slots)@.len() <= i < slots@.len() ==> slots@[i] is None,
        decreases count - added,
    {
        slots.push_back(None);
        added = added + 1;
    }
}

} // verus!
