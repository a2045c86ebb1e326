//! The queue of rollback requests.

use bevy::ecs::event::{Event, Events};
use vstd::prelude::*;

use crate::FrameNumber;

verus! {

/// Asks for a rollback to a frame.
#[derive(Debug, Clone, Copy, PartialEq, Eq)]
pub struct RollbackRequest(pub FrameNumber);

impl Event for RollbackRequest {

}

/// Rollback requests that wait to be consolidated, in the order in which they were sent.
///
/// They are kept in a bevy `Events` collection that nothing but
/// [`consolidate_rollback_requests`](crate::systems::consolidate_rollback_requests) empties.
#[verifier::external_body]
pub struct RollbackRequests {
    events: Events<RollbackRequest>,
}

/// The frames that are asked for and were not consolidated yet, oldest request first.
pub uninterp spec fn pending(requests: RollbackRequests) -> Seq<FrameNumber>;

/// How many requests were ever sent: the next request gets this number as its id.
pub uninterp spec fn sent(requests: RollbackRequests) -> nat;

impl RollbackRequests {
    /// `Events::default`: a collection without events, whose ids start at 0.
    #[verifier::external_body]
    fn no_events() -> (requests: Self)
        ensures
            pending(requests) == Seq::<FrameNumber>::empty(),
            sent(requests) == 0,
    {
        RollbackRequests { events: Events::default() }
    }

    /// `Events::send`: the event goes behind those that are held, and takes the next id. Ids are
    /// counted in a `usize`, so the last id cannot be given out.
    #[verifier::external_body]
    fn send_event(&mut self, request: RollbackRequest)
        requires
            sent(*old(self)) < usize::MAX,
        ensures
            pending(*final(self)) == pending(*old(self)).push(request.0),
            sent(*final(self)) == sent(*old(self)) + 1,
    {
        self.events.send(request);
    }

    /// `Events::drain`: takes all events out, oldest first. The count of ids goes on from where
    /// it was.
    #[verifier::external_body]
    pub(crate) fn drain_events(&mut self) -> (frames: Vec<FrameNumber>)
        ensures
            frames@ == pending(*old(self)),
            pending(*final(self)) == Seq::<FrameNumber>::empty(),
            sent(*final(self)) == sent(*old(self)),
    {
        self.events.drain().map(|request| request.0).collect()
    }

    /// `Events::len`: how many events are held.
    #[verifier::external_body]
    fn held_events(&self) -> (count: usize)
        ensures
            count == pending(*self).len(),
    {
        self.events.len()
    }

    /// `Events::oldest_event_count`: the id of the oldest event that is held, or the next id
    /// where none is. The ids of the held events run on from it.
    #[verifier::external_body]
    fn oldest_event(&self) -> (id: usize)
        ensures
            id + pending(*self).len() == sent(*self),
    {
        self.events.oldest_event_count()
    }

    /// An empty queue.
    pub fn new() -> (requests: Self)
        ensures
            pending(requests) == Seq::<FrameNumber>::empty(),
            sent(requests) == 0,
    {
        Self::no_events()
    }

    /// Another request can be sent: the queue has an id left for it.
    pub open spec fn has_room(self) -> bool {
        sent(self) < usize::MAX
    }

    /// Whether another request can be sent.
    pub fn check_room(&self) -> (room: bool)
        ensures
            room == self.has_room(),
    {
        let oldest: usize = self.oldest_event();
        let held: usize = self.held_events();
        oldest < usize::MAX - held
    }

    /// Asks for a rollback.
    pub fn send(&mut self, request: RollbackRequest)
        requires
            old(self).has_room(),
        ensures
            pending(*final(self)) == pending(*old(self)).push(request.0),
            sent(*final(self)) == sent(*old(self)) + 1,
    {
        self.send_event(request);
    }
}

} // verus!
