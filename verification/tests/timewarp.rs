use bevy::ecs::entity::Entity;
use timewarp::clock::{DespawnMarker, GameClock};
use timewarp::timewarp::{
    Anachronous, ComponentHistory, InsertComponentAtFrame, Period, Rollback, RollbackStats,
    ServerSnapshot, TimewarpCorrection,
};

fn entity() -> Entity {
    Entity::from_raw(3)
}

#[test]
fn newest_frames_only_grow() {
    let mut anachronous = Anachronous::new(5);
    assert_eq!(anachronous.frames_behind, 5);
    assert_eq!(anachronous.newest_snapshot_frame(), 0);
    assert_eq!(anachronous.newest_input_frame(), 0);
    assert!(anachronous.set_newest_snapshot_frame(10));
    assert!(!anachronous.set_newest_snapshot_frame(10));
    assert!(!anachronous.set_newest_snapshot_frame(9));
    assert_eq!(anachronous.newest_snapshot_frame(), 10);
    assert_eq!(anachronous.newest_input_frame(), 0);
    assert!(!anachronous.set_newest_input_frame(0));
    assert!(anachronous.set_newest_input_frame(4));
    assert!(anachronous.set_newest_input_frame(8));
    let copy = anachronous.clone();
    assert_eq!(copy.newest_input_frame(), 8);
    assert_eq!(copy.newest_snapshot_frame(), 10);
    assert_eq!(copy.frames_behind, 5);
}

#[test]
fn new_values() {
    let rollback = Rollback::new(3, 9);
    assert_eq!(rollback.range, 3..9);
    assert_eq!(rollback.original_period, None);
    let copy = Rollback { original_period: Some(Period { secs: 1, nanos: 2 }), ..rollback }.clone();
    assert_eq!(copy.range, 3..9);
    assert_eq!(copy.original_period, Some(Period { secs: 1, nanos: 2 }));
    let insertion = InsertComponentAtFrame::new(6, "shield");
    assert_eq!(insertion.frame, 6);
    assert_eq!(insertion.component, "shield");
    assert_eq!(RollbackStats::default().num_rollbacks, 0);
    assert_eq!(Period::zero(), Period { secs: 0, nanos: 0 });
    assert_eq!(GameClock::new().frame(), 0);
    assert_eq!(DespawnMarker::new().0, None);
    let correction = TimewarpCorrection { before: 1, after: 2, frame: 3 }.clone();
    assert_eq!((correction.before, correction.after, correction.frame), (1, 2, 3));
}

#[test]
fn snapshots_are_read_back() {
    let mut snapshot = ServerSnapshot::with_capacity(3);
    snapshot.insert(5, 'a');
    snapshot.insert(7, 'b');
    snapshot.insert(4, 'c');
    assert_eq!(snapshot.at_frame(5), Some(&'a'));
    assert_eq!(snapshot.at_frame(6), None);
    assert_eq!(snapshot.at_frame(7), Some(&'b'));
    assert_eq!(snapshot.at_frame(4), None);
}

#[test]
fn history_starts_with_a_birth() {
    let history: ComponentHistory<u8> = ComponentHistory::with_capacity(4, 6);
    assert_eq!(history.alive_ranges, vec![(6, None)]);
    assert_eq!(history.diff_at_frame, None);
    assert!(!history.correction_logging_enabled);
    assert_eq!(history.most_recent_authoritative_frame, 0);
    assert!(!history.alive_at_frame(5));
    assert!(history.alive_at_frame(6));
    assert!(history.alive_at_frame(u32::MAX));
    assert_eq!(history.at_frame(6), None);
}

#[test]
fn a_component_lives_from_birth_until_death() {
    let mut history: ComponentHistory<u8> = ComponentHistory::with_capacity(4, 2);
    history.report_death_at_frame(5);
    history.report_birth_at_frame(8);
    assert!(!history.alive_at_frame(1));
    assert!(history.alive_at_frame(2));
    assert!(history.alive_at_frame(4));
    assert!(!history.alive_at_frame(5));
    assert!(!history.alive_at_frame(7));
    assert!(history.alive_at_frame(8));
    history.report_death_at_frame(9);
    assert!(history.alive_at_frame(8));
    assert!(!history.alive_at_frame(9));
    assert_eq!(history.alive_ranges, vec![(2, Some(5)), (8, Some(9))]);
}

#[test]
fn values_are_recorded_and_removed() {
    let mut history = ComponentHistory::with_capacity(10, 1);
    for frame in 1..8 {
        history.insert(frame, frame * 2, &entity());
    }
    assert_eq!(history.at_frame(6), Some(&12));
    assert_eq!(history.most_recent_authoritative_frame, 0);
    history.remove_frame_and_beyond(5);
    assert_eq!(history.at_frame(4), Some(&8));
    assert_eq!(history.at_frame(5), None);
    assert_eq!(history.at_frame(6), None);
    assert_eq!(history.alive_ranges, vec![(1, None)]);
}

#[test]
fn frame_zero_and_beyond_is_everything() {
    let mut history = ComponentHistory::with_capacity(10, 0);
    history.insert(0, 1, &entity());
    history.insert(1, 2, &entity());
    history.remove_frame_and_beyond(0);
    assert_eq!(history.at_frame(0), None);
    assert_eq!(history.at_frame(1), None);
}

#[test]
fn authoritative_values_are_remembered_as_such() {
    let mut history = ComponentHistory::with_capacity(10, 1);
    history.insert_authoritative(6, 60, &entity());
    assert_eq!(history.most_recent_authoritative_frame, 6);
    history.insert_authoritative(4, 40, &entity());
    assert_eq!(history.most_recent_authoritative_frame, 4);
    assert_eq!(history.at_frame(6), Some(&60));
    assert_eq!(history.at_frame(4), Some(&40));
    history.enable_correction_logging();
    assert!(history.correction_logging_enabled);
}
