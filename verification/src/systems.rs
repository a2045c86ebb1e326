//! The steps of recording, rolling back and resimulating.
//!
//! A step that runs for every entity of a query is a function on the components of one entity.
//! What it leaves to its caller, to insert or remove a component, is its result.

use bevy::ecs::entity::Entity;
use vstd::prelude::*;
use vstd::std_specs::cmp::PartialEqSpec;

use crate::clock::{frames_before, DespawnMarker, GameClock, TimewarpConfig};
use crate::frame_buffer::Frames;
use crate::requests::{pending, sent, RollbackRequest, RollbackRequests};
use crate::timewarp::{
    Anachronous, ComponentHistory, History, InsertComponentAtFrame, Period, PreviousRollback,
    Rollback, RollbackStats, ServerSnapshot, TimewarpCorrection,
};
use crate::FrameNumber;

verus! {

/// Snapshots come every few frames only, so most of the frames in their buffer stay empty. The
/// buffer reaches this many rollback windows back.
pub const SNAPSHOT_WINDOWS: usize = 60;

/// `frame` is the smallest of `frames`.
pub open spec fn is_smallest(frames: Seq<FrameNumber>, frame: FrameNumber) -> bool {
    &&& frames.contains(frame)
    &&& forall|i: int| 0 <= i < frames.len() ==> frame <= #[trigger] frames[i]
}

/// The rollback that covers all of `frames`, up to the frame `now`; `None` if there are none.
pub open spec fn covers_requests(
    frames: Seq<FrameNumber>,
    now: FrameNumber,
    rollback: Option<Rollback>,
) -> bool {
    match rollback {
        Some(rollback) => {
            &&& is_smallest(frames, rollback.range.start)
            &&& rollback.range.end == now
            &&& rollback.original_period is None
        },
        None => frames.len() == 0,
    }
}

/// The rollback that `frames` ask for together: to the smallest of them, which covers them all.
pub fn rollback_for_frames(frames: &Vec<FrameNumber>, game_clock: &GameClock) -> (rollback: Option<
    Rollback,
>)
    ensures
        covers_requests(frames@, game_clock@, rollback),
{
    if frames.len() == 0 {
        return None;
    }
    let mut rb_frame: FrameNumber = frames[0];
    let mut i: usize = 1;
    assert(frames@[0] == rb_frame);
    while i < frames.len()
        invariant
            1 <= i <= frames@.len(),
            frames@.contains(rb_frame),
            forall|j: int| 0 <= j < i ==> rb_frame <= #[trigger] frames@[j],
        decreases frames@.len() - i,
    {
        if frames[i] < rb_frame {
            rb_frame = frames[i];
        }
        i = i + 1;
    }
    Some(Rollback::new(rb_frame, game_clock.frame()))
}

/// Potentially concurrent systems ask for rollbacks through the queue. This drains it and uses
/// the smallest frame that was asked for, so that all of them are covered.
pub fn consolidate_rollback_requests(
    rb_events: &mut RollbackRequests,
    game_clock: &GameClock,
) -> (rollback: Option<Rollback>)
    ensures
        covers_requests(pending(*old(rb_events)), game_clock@, rollback),
        pending(*final(rb_events)) == Seq::<FrameNumber>::empty(),
        sent(*final(rb_events)) == sent(*old(rb_events)),
{
    let frames = rb_events.drain_events();
    rollback_for_frames(&frames, game_clock)
}

/// Rollback data for an entity that just got a component: a history with the component's value
/// at this frame, and room for the server's snapshots.
pub fn add_timewarp_buffer_components<T: Clone, const CORRECTION_LOGGING: bool>(
    e: &Entity,
    comp: &T,
    game_clock: &GameClock,
    timewarp_config: &TimewarpConfig,
) -> (buffers: (ComponentHistory<T>, ServerSnapshot<T>))
    requires
        timewarp_config.rollback_window * SNAPSHOT_WINDOWS <= usize::MAX,
    ensures
        exists|val: T|
            {
                &&& #[trigger] cloned(*comp, val)
                &&& buffers.0@ == buffered_history(
                    timewarp_config.rollback_window as nat,
                    game_clock@,
                    val,
                    CORRECTION_LOGGING,
                )
            },
        buffers.1@ == Frames::<T>::empty((timewarp_config.rollback_window * SNAPSHOT_WINDOWS) as nat),
{
    let mut comp_history: ComponentHistory<T> = ComponentHistory::with_capacity(
        timewarp_config.rollback_window as usize,
        game_clock.frame(),
    );
    if CORRECTION_LOGGING {
        comp_history.enable_correction_logging();
    }
    let val = comp.clone();
    assert(cloned(*comp, val));
    comp_history.insert(game_clock.frame(), val, e);
    (
        comp_history,
        ServerSnapshot::with_capacity(timewarp_config.rollback_window as usize * SNAPSHOT_WINDOWS),
    )
}

/// The history of a component that gets its first value, `val`, at frame `now`.
pub open spec fn buffered_history<T>(
    len: nat,
    now: FrameNumber,
    val: T,
    correction_logging: bool,
) -> History<T> {
    let born = History::born(len, now);
    let ready = if correction_logging {
        born.with_correction_logging()
    } else {
        born
    };
    ready.insert(now, val)
}

/// Records the birth of a component that an entity got again. (When it gets it for the first
/// time there is no history yet.)
///
/// During a rollback components are removed and added again, which is no birth.
pub fn record_component_added_to_alive_ranges<T>(
    ct: &mut ComponentHistory<T>,
    game_clock: &GameClock,
    rb: Option<&Rollback>,
)
    ensures
        final(ct)@ == if rb is Some {
            old(ct)@
        } else {
            old(ct)@.report_birth(game_clock@)
        },
{
    if rb.is_some() {
        return;
    }
    ct.report_birth_at_frame(game_clock.frame());
}

/// Whether `a == b` came out as `equal`. Where the equality of `T` is specified, it decides.
pub open spec fn compared<T: PartialEq>(a: T, b: T, equal: bool) -> bool {
    &&& call_ensures(T::eq, (&a, &b), equal)
    &&& T::obeys_eq_spec() ==> equal == a.eq_spec(&b)
}

/// The value recorded at `now` is to be compared with the one that is about to replace it.
pub open spec fn diff_is_due<T>(history: History<T>, now: FrameNumber) -> bool {
    history.correction_logging_enabled && history.diff_at_frame == Some(now)
}

/// Writes the current value of a component to its history.
///
/// If the history expects a comparison at this frame, then there was a rollback, and this frame
/// was simulated before. Its value then and its value now, if they differ, are the error of the
/// first simulation: the component snaps from one to the other. They are returned.
pub fn record_component_history_values<T: Clone + PartialEq>(
    entity: &Entity,
    comp: &T,
    comp_hist: &mut ComponentHistory<T>,
    game_clock: &GameClock,
) -> (correction: Option<TimewarpCorrection<T>>)
    requires
        diff_is_due(old(comp_hist)@, game_clock@) ==> old(comp_hist)@.at(game_clock@) is Some,
    ensures
        exists|val: T|
            {
                &&& #[trigger] cloned(*comp, val)
                &&& final(comp_hist)@ == if diff_is_due(old(comp_hist)@, game_clock@) {
                    old(comp_hist)@.with_diff_at(None).insert(game_clock@, val)
                } else {
                    old(comp_hist)@.insert(game_clock@, val)
                }
            },
        final(comp_hist)@.frames.valid(),
        match correction {
            Some(correction) => {
                &&& diff_is_due(old(comp_hist)@, game_clock@)
                &&& compared(old(comp_hist)@.at(game_clock@)->0, *comp, false)
                &&& cloned(old(comp_hist)@.at(game_clock@)->0, correction.before)
                &&& cloned(*comp, correction.after)
                &&& correction.frame == game_clock@
            },
            None => diff_is_due(old(comp_hist)@, game_clock@) ==> compared(
                old(comp_hist)@.at(game_clock@)->0,
                *comp,
                true,
            ),
        },
{
    let now: FrameNumber = game_clock.frame();
    let mut correction: Option<TimewarpCorrection<T>> = None;
    if comp_hist.correction_logging_enabled {
        if let Some(diff_frame) = comp_hist.diff_at_frame {
            if diff_frame == now {
                comp_hist.diff_at_frame = None;
                if let Some(old_val) = comp_hist.at_frame(now) {
                    if !(*old_val == *comp) {
                        correction =
                        Some(
                            TimewarpCorrection {
                                before: old_val.clone(),
                                after: comp.clone(),
                                frame: now,
                            },
                        );
                    }
                }
            }
        }
    }
    let val = comp.clone();
    assert(cloned(*comp, val));
    comp_hist.insert(now, val, entity);
    correction
}

/// Between `before` and `after` one request was sent, for `frame`.
pub open spec fn requested(
    before: RollbackRequests,
    after: RollbackRequests,
    frame: FrameNumber,
) -> bool {
    &&& pending(after) == pending(before).push(frame)
    &&& sent(after) == sent(before) + 1
}

/// A history with an authoritative `val` at `frame`, alive from there on.
pub open spec fn inserted_history<T>(len: nat, frame: FrameNumber, val: T) -> History<T> {
    History::born(len, frame).insert_authoritative(frame, val)
}

/// Inserts a component as of a previous frame, into the history and the snapshots of the entity,
/// and asks for a rollback to that frame.
///
/// If the entity never had such a component, it has no history or snapshots of it: they are
/// returned, to be inserted.
pub fn insert_components_at_prior_frames<T: Clone>(
    entity: &Entity,
    icaf: &InsertComponentAtFrame<T>,
    opt_ch: Option<&mut ComponentHistory<T>>,
    opt_ss: Option<&mut ServerSnapshot<T>>,
    timewarp_config: &TimewarpConfig,
    rb_ev: &mut RollbackRequests,
) -> (buffers: (Option<ComponentHistory<T>>, Option<ServerSnapshot<T>>))
    requires
        timewarp_config.rollback_window * SNAPSHOT_WINDOWS <= usize::MAX,
        old(rb_ev).has_room(),
    ensures
        buffers.0 is Some <==> opt_ch is None,
        buffers.1 is Some <==> opt_ss is None,
        match opt_ch {
            Some(ch) => exists|val: T|
                {
                    &&& #[trigger] cloned(icaf.component, val)
                    &&& final(ch)@ == ch@.insert_authoritative(icaf.frame, val).report_birth(
                        icaf.frame,
                    )
                },
            None => exists|val: T|
                {
                    &&& #[trigger] cloned(icaf.component, val)
                    &&& buffers.0->0@ == inserted_history(
                        timewarp_config.rollback_window as nat,
                        icaf.frame,
                        val,
                    )
                },
        },
        match opt_ss {
            Some(ss) => exists|val: T|
                {
                    &&& #[trigger] cloned(icaf.component, val)
                    &&& final(ss)@ == ss@.insert(icaf.frame, val)
                },
            None => exists|val: T|
                {
                    &&& #[trigger] cloned(icaf.component, val)
                    &&& buffers.1->0@ == Frames::<T>::empty(
                        (timewarp_config.rollback_window * SNAPSHOT_WINDOWS) as nat,
                    ).insert(icaf.frame, val)
                },
        },
        requested(*old(rb_ev), *final(rb_ev), icaf.frame),
{
    let val = icaf.component.clone();
    assert(cloned(icaf.component, val));
    let new_history = match opt_ch {
        Some(ch) => {
            ch.insert_authoritative(icaf.frame, val, entity);
            ch.report_birth_at_frame(icaf.frame);
            None
        },
        None => {
            let mut ch: ComponentHistory<T> = ComponentHistory::with_capacity(
                timewarp_config.rollback_window as usize,
                icaf.frame,
            );
            ch.insert_authoritative(icaf.frame, val, entity);
            Some(ch)
        },
    };
    let val = icaf.component.clone();
    assert(cloned(icaf.component, val));
    let new_snapshot = match opt_ss {
        Some(ss) => {
            ss.insert(icaf.frame, val);
            None
        },
        None => {
            let mut ss: ServerSnapshot<T> = ServerSnapshot::with_capacity(
                timewarp_config.rollback_window as usize * SNAPSHOT_WINDOWS,
            );
            ss.insert(icaf.frame, val);
            Some(ss)
        },
    };
    rb_ev.send(RollbackRequest(icaf.frame));
    (new_history, new_snapshot)
}

/// The server's newest snapshot is later than the authoritative value that the history was given
/// last.
pub open spec fn has_news<T>(history: History<T>, snapshots: Frames<T>) -> bool {
    history.most_recent_authoritative_frame < snapshots.newest_frame()
}

/// `after` is `before` with the newest snapshot taken over, and with a comparison to come when
/// the present frame `now` is simulated again.
pub open spec fn snapshot_taken_over<T: Clone>(
    before: History<T>,
    after: History<T>,
    snapshots: Frames<T>,
    now: FrameNumber,
) -> bool {
    let frame = snapshots.newest_frame();
    exists|val: T|
        {
            &&& #[trigger] cloned(snapshots.values[frame], val)
            &&& after == if before.correction_logging_enabled {
                before.insert_authoritative(frame, val).with_diff_at(Some(now))
            } else {
                before.insert_authoritative(frame, val)
            }
        }
}

/// For an entity that lives in the present, when its snapshots have changed:
/// - Is there a snapshot newer than the last authoritative frame in the history?
/// - Does its value differ from the value that was predicted for that frame?
/// - If so, copies it to the history and asks for a rollback to that frame.
pub fn apply_snapshots_and_rollback_for_non_anachronous<T: Clone + PartialEq>(
    entity: &Entity,
    comp_history: &mut ComponentHistory<T>,
    comp_server: &ServerSnapshot<T>,
    game_clock: &GameClock,
    rb_ev: &mut RollbackRequests,
)
    requires
        has_news(old(comp_history)@, comp_server@) ==> old(rb_ev).has_room(),
    ensures
        !has_news(old(comp_history)@, comp_server@) ==> {
            &&& *final(comp_history) == *old(comp_history)
            &&& *final(rb_ev) == *old(rb_ev)
        },
        has_news(old(comp_history)@, comp_server@) ==> {
            ||| {
                &&& *final(comp_history) == *old(comp_history)
                &&& *final(rb_ev) == *old(rb_ev)
                &&& old(comp_history)@.at(comp_server@.newest_frame()) matches Some(predicted)
                &&& compared(predicted, comp_server@.values[comp_server@.newest_frame()], true)
            }
            ||| {
                &&& snapshot_taken_over(
                    old(comp_history)@,
                    final(comp_history)@,
                    comp_server@,
                    game_clock@,
                )
                &&& requested(*old(rb_ev), *final(rb_ev), comp_server@.newest_frame())
                &&& old(comp_history)@.at(comp_server@.newest_frame()) matches Some(predicted)
                    ==> compared(
                    predicted,
                    comp_server@.values[comp_server@.newest_frame()],
                    false,
                )
            }
        },
{
    let new_snapshot_frame: FrameNumber = comp_server.values.newest_frame();
    if new_snapshot_frame == 0 {
        return;
    }
    if comp_history.most_recent_authoritative_frame < new_snapshot_frame {
        if let Some(server_val) = comp_server.values.get(new_snapshot_frame) {
            if let Some(predicted) = comp_history.at_frame(new_snapshot_frame) {
                if *predicted == *server_val {
                    return;
                }
            }
            let new_comp_val = server_val.clone();
            assert(cloned(comp_server@.values[comp_server@.newest_frame()], new_comp_val));
            comp_history.insert_authoritative(new_snapshot_frame, new_comp_val, entity);
            if comp_history.correction_logging_enabled {
                comp_history.diff_at_frame = Some(game_clock.frame());
            }
            rb_ev.send(RollbackRequest(new_snapshot_frame));
        }
    }
}

/// The newest snapshot of an entity that is held `frames_behind` frames back at frame `now` is
/// one that it has reached.
pub open spec fn has_reached_snapshot<T>(
    snapshots: Frames<T>,
    now: FrameNumber,
    frames_behind: FrameNumber,
) -> bool {
    0 < snapshots.newest_frame() <= frames_before(now, frames_behind)
}

/// For an entity that is held back in the past, when its snapshots have changed: copies the
/// newest one to the history and asks for a rollback to the frame at which the entity, held back,
/// comes to the frame of the snapshot. A snapshot ahead of where the entity is now is no reason
/// to roll back.
///
/// Often the same packet brings snapshots for entities of the present, which ask for a rollback
/// to the frame of the snapshot itself, further back. The snapshot then takes effect on the way
/// forward, through [`apply_snapshots_and_snap_for_anachronous`].
pub fn trigger_rollbacks_for_anachronous_entities_when_snapshots_arrive<T: Clone>(
    entity: &Entity,
    anachronous: &Anachronous,
    server_snapshot: &ServerSnapshot<T>,
    comp_history: &mut ComponentHistory<T>,
    game_clock: &GameClock,
    rb_ev: &mut RollbackRequests,
)
    requires
        has_reached_snapshot(server_snapshot@, game_clock@, anachronous@.frames_behind) ==> old(
            rb_ev,
        ).has_room(),
    ensures
        ({
            let snap_frame = server_snapshot@.newest_frame();
            if has_reached_snapshot(server_snapshot@, game_clock@, anachronous@.frames_behind) {
                &&& exists|val: T|
                    {
                        &&& #[trigger] cloned(server_snapshot@.values[snap_frame], val)
                        &&& final(comp_history)@ == old(comp_history)@.insert_authoritative(
                            snap_frame,
                            val,
                        )
                    }
                &&& requested(
                    *old(rb_ev),
                    *final(rb_ev),
                    (snap_frame + anachronous@.frames_behind) as FrameNumber,
                )
            } else {
                &&& *final(comp_history) == *old(comp_history)
                &&& *final(rb_ev) == *old(rb_ev)
            }
        }),
{
    let snap_frame: FrameNumber = server_snapshot.values.newest_frame();
    if snap_frame == 0 {
        return;
    }
    let frames_behind: FrameNumber = anachronous.frames_behind();
    let target_frame: FrameNumber = game_clock.frame().saturating_sub(frames_behind);
    if snap_frame > target_frame {
        return;
    }
    if let Some(server_val) = server_snapshot.values.get(snap_frame) {
        let new_comp_val = server_val.clone();
        assert(cloned(server_snapshot@.values[snap_frame], new_comp_val));
        comp_history.insert_authoritative(snap_frame, new_comp_val, entity);
        let rollback_frame: FrameNumber = snap_frame + frames_behind;
        rb_ev.send(RollbackRequest(rollback_frame));
    }
}

/// An entity that is held `frames_behind` frames back comes to a frame with a snapshot at frame
/// `now`, and the authoritative value that its history was given last is not from later on.
pub open spec fn snaps_at<T>(
    history: History<T>,
    snapshots: Frames<T>,
    now: FrameNumber,
    frames_behind: FrameNumber,
) -> bool {
    &&& snapshots.newest_frame() != 0
    &&& history.most_recent_authoritative_frame <= frames_before(now, frames_behind)
    &&& snapshots.get(frames_before(now, frames_behind)) is Some
}

/// For an entity that is held back in the past: if the frame that it comes to has a snapshot,
/// records that value as the one of the current frame, and returns it for the component to snap
/// to.
pub fn apply_snapshots_and_snap_for_anachronous<T: Clone>(
    entity: &Entity,
    comp_history: &mut ComponentHistory<T>,
    comp_server: &ServerSnapshot<T>,
    anach: &Anachronous,
    game_clock: &GameClock,
) -> (snapped: Option<T>)
    ensures
        ({
            let target_frame = frames_before(game_clock@, anach@.frames_behind);
            if snaps_at(old(comp_history)@, comp_server@, game_clock@, anach@.frames_behind) {
                &&& snapped is Some
                &&& cloned(comp_server@.values[target_frame], snapped->0)
                &&& exists|val: T|
                    {
                        &&& #[trigger] cloned(comp_server@.values[target_frame], val)
                        &&& final(comp_history)@ == old(comp_history)@.insert_authoritative(
                            game_clock@,
                            val,
                        )
                    }
            } else {
                &&& snapped is None
                &&& *final(comp_history) == *old(comp_history)
            }
        }),
{
    if comp_server.values.newest_frame() == 0 {
        return None;
    }
    let target_frame: FrameNumber = game_clock.frame().saturating_sub(anach.frames_behind());
    if comp_history.most_recent_authoritative_frame > target_frame {
        return None;
    }
    if let Some(new_comp_val) = comp_server.values.get(target_frame) {
        let val = new_comp_val.clone();
        assert(cloned(comp_server@.values[target_frame], val));
        comp_history.insert_authoritative(game_clock.frame(), val, entity);
        Some(new_comp_val.clone())
    } else {
        None
    }
}

/// Records the death of a component that was removed.
pub fn record_component_removed_to_alive_ranges<T>(
    ct: &mut ComponentHistory<T>,
    game_clock: &GameClock,
)
    requires
        old(ct)@.alive_ranges.len() > 0,
    ensures
        final(ct)@ == old(ct)@.report_death(game_clock@),
{
    ct.report_death_at_frame(game_clock.frame());
}

/// Starts a rollback: winds the clock back to the first frame of its range, and sets the period
/// of the fixed update to zero so that frames take no time to come. The period as it was is kept
/// for when the rollback is over.
pub fn rollback_initiated(
    game_clock: &mut GameClock,
    rb: &mut Rollback,
    fixed_period: &mut Period,
    rb_stats: &mut RollbackStats,
)
    requires
        old(rb_stats).num_rollbacks < u64::MAX,
    ensures
        final(game_clock)@ == old(rb).range.start,
        *final(rb) == old(rb).started(*old(fixed_period)),
        final(fixed_period).is_zero(),
        final(rb_stats).num_rollbacks == old(rb_stats).num_rollbacks + 1,
{
    rb.original_period = Some(*fixed_period);
    rb_stats.num_rollbacks = rb_stats.num_rollbacks + 1;
    *fixed_period = Period::zero();
    game_clock.set(rb.range.start);
}

/// An entity without the component gets it back, with the value recorded at `now`, exactly if it
/// is alive at that frame.
pub open spec fn reinserts<T: Clone>(
    history: History<T>,
    now: FrameNumber,
    reinserted: Option<T>,
) -> bool {
    match reinserted {
        Some(val) => {
            &&& history.alive_at(now)
            &&& history.at(now) matches Some(recorded)
            &&& cloned(recorded, val)
        },
        None => !history.alive_at(now),
    }
}

/// During a rollback, for an entity without the component: the value to insert again if the
/// component is alive at this frame.
pub fn reinsert_components_removed_during_rollback_at_correct_frame<T: Clone>(
    comp_history: &ComponentHistory<T>,
    game_clock: &GameClock,
) -> (reinserted: Option<T>)
    requires
        comp_history@.alive_at(game_clock@) ==> comp_history@.at(game_clock@) is Some,
    ensures
        reinserts(comp_history@, game_clock@, reinserted),
{
    if comp_history.alive_at_frame(game_clock.frame()) {
        match comp_history.at_frame(game_clock.frame()) {
            Some(comp_val) => Some(comp_val.clone()),
            None => None,
        }
    } else {
        None
    }
}

/// An entity with the component loses it exactly if it is not alive at `now`. Its history goes
/// from `before` to `after`: the values from `now` on are forgotten with it.
pub open spec fn reremoves<T>(
    before: History<T>,
    after: History<T>,
    now: FrameNumber,
    removed: bool,
) -> bool {
    &&& removed == !before.alive_at(now)
    &&& after == if removed {
        before.remove_frame_and_beyond(now)
    } else {
        before
    }
}

/// During a rollback, for an entity with the component: whether to remove it because it is not
/// alive at this frame. Its values from this frame on are forgotten then.
pub fn reremove_components_inserted_during_rollback_at_correct_frame<T>(
    comp_history: &mut ComponentHistory<T>,
    game_clock: &GameClock,
) -> (removed: bool)
    ensures
        reremoves(old(comp_history)@, final(comp_history)@, game_clock@, removed),
{
    if !comp_history.alive_at_frame(game_clock.frame()) {
        comp_history.remove_frame_and_beyond(game_clock.frame());
        true
    } else {
        false
    }
}

/// What becomes of a component on the first frame of a rollback.
#[derive(Debug)]
pub enum Restoration<T> {
    /// It was dead at the target frame and is dead now: nothing.
    Dead,
    /// It was dead at the target frame and lives now: it is removed.
    Remove,
    /// It was alive at the target frame, and the entity has it: it gets its old value.
    Assign(T),
    /// It was alive at the target frame, and the entity has it no more: it is inserted with its
    /// old value.
    Insert(T),
    /// It was alive at the target frame, but no value was recorded there: nothing.
    NotRecorded,
}

impl<T> Restoration<T> {
    /// The value that the component has afterwards, where it is given one.
    pub open spec fn value(self) -> Option<T> {
        match self {
            Restoration::Assign(val) => Some(val),
            Restoration::Insert(val) => Some(val),
            _ => None,
        }
    }
}

/// `restoration` brings a component back to `target_frame`.
pub open spec fn restores<T: Clone>(
    history: History<T>,
    target_frame: FrameNumber,
    present: bool,
    restoration: Restoration<T>,
) -> bool {
    if !history.alive_at(target_frame) {
        restoration == if present {
            Restoration::<T>::Remove
        } else {
            Restoration::<T>::Dead
        }
    } else {
        match history.at(target_frame) {
            Some(old_val) => if present {
                restoration matches Restoration::Assign(val) && cloned(old_val, val)
            } else {
                restoration matches Restoration::Insert(val) && cloned(old_val, val)
            },
            None => restoration == Restoration::<T>::NotRecorded,
        }
    }
}

/// How many frames an entity is held back, if it is.
pub open spec fn held_back(opt_anach: Option<&Anachronous>) -> FrameNumber {
    match opt_anach {
        Some(anach) => anach@.frames_behind,
        None => 0,
    }
}

/// On the first frame of a rollback: how to bring a component back to what is recorded of it at
/// that frame. It may not have existed then, or not exist in the present. For an entity that is
/// held back, the record is that of the earlier frame where it is held.
pub fn rollback_initiated_for_component<T: Clone>(
    rb: &Rollback,
    opt_comp: Option<&T>,
    comp_hist: &ComponentHistory<T>,
    opt_anach: Option<&Anachronous>,
) -> (restoration: Restoration<T>)
    ensures
        restores(
            comp_hist@,
            frames_before(rb.range.start, held_back(opt_anach)),
            opt_comp is Some,
            restoration,
        ),
{
    let frames_behind: FrameNumber = match opt_anach {
        Some(anach) => anach.frames_behind(),
        None => 0,
    };
    let target_frame: FrameNumber = rb.range.start.saturating_sub(frames_behind);
    if !comp_hist.alive_at_frame(target_frame) {
        return if opt_comp.is_none() {
            Restoration::Dead
        } else {
            Restoration::Remove
        };
    }
    match comp_hist.at_frame(target_frame) {
        Some(component) => if opt_comp.is_some() {
            Restoration::Assign(component.clone())
        } else {
            Restoration::Insert(component.clone())
        },
        None => Restoration::NotRecorded,
    }
}

/// If the rollback has reached the end of its range, restores the period of the fixed update and
/// returns the rollback as the previous one; it is over.
pub fn check_for_rollback_completion(
    game_clock: &GameClock,
    rb: &Rollback,
    fixed_period: &mut Period,
) -> (completed: Option<PreviousRollback>)
    requires
        !rb.spec_contains(game_clock@) ==> rb.original_period is Some,
    ensures
        if rb.spec_contains(game_clock@) {
            &&& completed is None
            &&& *final(fixed_period) == *old(fixed_period)
        } else {
            &&& completed == Some(PreviousRollback(*rb))
            &&& rb.original_period == Some(*final(fixed_period))
        },
{
    if rb.range.contains(&game_clock.frame()) {
        return None;
    }
    if let Some(original_period) = rb.original_period {
        *fixed_period = original_period;
    }
    Some(PreviousRollback(rb.clone()))
}

/// `marker` with the frame `now`, unless it has one.
pub open spec fn noticed_at(marker: DespawnMarker, now: FrameNumber) -> DespawnMarker {
    match marker.0 {
        Some(_) => marker,
        None => DespawnMarker(Some(now)),
    }
}

/// Fills a new despawn marker with the current frame, unless it came with one.
pub fn add_frame_to_freshly_added_despawn_markers(
    despawn_marker: &mut DespawnMarker,
    game_clock: &GameClock,
)
    ensures
        *final(despawn_marker) == noticed_at(*old(despawn_marker), game_clock@),
{
    if despawn_marker.0.is_none() {
        despawn_marker.0 = Some(game_clock.frame());
    }
}

/// A despawn marker means that the entity loses all its components, until it is despawned:
/// records the death of a component that is to be removed.
pub fn remove_components_from_entities_with_freshly_added_despawn_markers<T>(
    ct: &mut ComponentHistory<T>,
    game_clock: &GameClock,
)
    requires
        old(ct)@.alive_ranges.len() > 0,
    ensures
        final(ct)@ == old(ct)@.report_death(game_clock@),
{
    ct.report_death_at_frame(game_clock.frame());
}

/// At frame `now`, `marker` has been around for the whole rollback window.
pub open spec fn despawn_is_due(
    marker: DespawnMarker,
    config: TimewarpConfig,
    now: FrameNumber,
) -> bool {
    marker.0 is Some && marker.0->0 + config.rollback_window == now
}

/// Whether a despawn marker has been around for the whole rollback window, so that the entity is
/// to be despawned now.
pub fn do_actual_despawn_after_rollback_frames_from_despawn_marker(
    marker: &DespawnMarker,
    game_clock: &GameClock,
    timewarp_config: &TimewarpConfig,
) -> (due: bool)
    requires
        marker.0 is Some,
        marker.0->0 + timewarp_config.rollback_window <= FrameNumber::MAX,
    ensures
        due == despawn_is_due(*marker, *timewarp_config, game_clock@),
{
    match marker.0 {
        Some(frame) => frame + timewarp_config.rollback_window == game_clock.frame(),
        None => false,
    }
}

} // verus!
