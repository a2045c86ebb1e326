use bevy::ecs::entity::Entity;
use timewarp::clock::{DespawnMarker, GameClock, TimewarpConfig};
use timewarp::requests::{RollbackRequest, RollbackRequests};
use timewarp::systems::{
    add_frame_to_freshly_added_despawn_markers, add_timewarp_buffer_components,
    apply_snapshots_and_rollback_for_non_anachronous, apply_snapshots_and_snap_for_anachronous,
    check_for_rollback_completion, consolidate_rollback_requests,
    do_actual_despawn_after_rollback_frames_from_despawn_marker,
    insert_components_at_prior_frames, record_component_added_to_alive_ranges,
    record_component_history_values, record_component_removed_to_alive_ranges,
    reinsert_components_removed_during_rollback_at_correct_frame,
    remove_components_from_entities_with_freshly_added_despawn_markers,
    reremove_components_inserted_during_rollback_at_correct_frame, rollback_for_frames,
    rollback_initiated, rollback_initiated_for_component,
    trigger_rollbacks_for_anachronous_entities_when_snapshots_arrive, Restoration,
};
use timewarp::timewarp::{
    Anachronous, ComponentHistory, InsertComponentAtFrame, Period, Rollback, RollbackStats,
    ServerSnapshot,
};

fn entity() -> Entity {
    Entity::from_raw(3)
}

fn clock(frame: u32) -> GameClock {
    let mut clock = GameClock::new();
    clock.set(frame);
    clock
}

fn requests(frames: &[u32]) -> RollbackRequests {
    let mut requests = RollbackRequests::new();
    for frame in frames {
        assert!(requests.check_room());
        requests.send(RollbackRequest(*frame));
    }
    requests
}

/// The frame that the requests ask for together.
fn asked_for(requests: &mut RollbackRequests) -> Option<u32> {
    consolidate_rollback_requests(requests, &clock(100)).map(|rollback| rollback.range.start)
}

fn history_of(frames: std::ops::Range<u32>) -> ComponentHistory<u32> {
    let mut history = ComponentHistory::with_capacity(20, frames.start);
    for frame in frames {
        history.insert(frame, frame * 10, &entity());
    }
    history
}

fn snapshot_at(frame: u32, val: u32) -> ServerSnapshot<u32> {
    let mut snapshot = ServerSnapshot::with_capacity(100);
    snapshot.insert(frame, val);
    snapshot
}

#[test]
fn requests_are_consolidated_to_the_smallest_frame() {
    let mut queue = requests(&[7, 4, 9]);
    let rollback = consolidate_rollback_requests(&mut queue, &clock(12)).unwrap();
    assert_eq!(rollback.range, 4..12);
    assert_eq!(rollback.original_period, None);
    assert!(consolidate_rollback_requests(&mut queue, &clock(12)).is_none());
}

#[test]
fn no_requests_no_rollback() {
    assert!(consolidate_rollback_requests(&mut RollbackRequests::new(), &clock(3)).is_none());
    assert!(rollback_for_frames(&vec![], &clock(3)).is_none());
}

#[test]
fn request_order_is_irrelevant() {
    for frames in [[3, 5, 8], [8, 5, 3], [5, 3, 8], [5, 8, 3]] {
        assert_eq!(asked_for(&mut requests(&frames)), Some(3));
        assert_eq!(rollback_for_frames(&frames.to_vec(), &clock(9)).unwrap().range, 3..9);
    }
}

#[test]
fn repeated_requests_are_irrelevant() {
    for frames in [vec![3, 5], vec![5, 5, 3], vec![3, 3, 5, 3, 5]] {
        assert_eq!(asked_for(&mut requests(&frames)), Some(3));
        assert_eq!(rollback_for_frames(&frames, &clock(9)).unwrap().range, 3..9);
    }
}

#[test]
fn a_request_for_frame_zero_is_covered() {
    assert_eq!(asked_for(&mut requests(&[0, 5])), Some(0));
    assert_eq!(asked_for(&mut requests(&[5, 0])), Some(0));
}

#[test]
fn requests_after_consolidation_are_new() {
    let mut queue = requests(&[2]);
    assert_eq!(asked_for(&mut queue), Some(2));
    queue.send(RollbackRequest(6));
    assert!(queue.check_room());
    assert_eq!(asked_for(&mut queue), Some(6));
}

#[test]
fn an_added_component_gets_buffers() {
    let config = TimewarpConfig { rollback_window: 4 };
    let (history, mut snapshot) =
        add_timewarp_buffer_components::<u32, false>(&entity(), &55, &clock(8), &config);
    assert_eq!(history.at_frame(8), Some(&55));
    assert_eq!(history.alive_ranges, vec![(8, None)]);
    assert!(!history.correction_logging_enabled);
    assert_eq!(snapshot.values.newest_frame(), 0);
    snapshot.insert(1000, 1);
    snapshot.insert(761, 2);
    snapshot.insert(760, 3);
    assert_eq!(snapshot.at_frame(761), Some(&2));
    assert_eq!(snapshot.at_frame(760), None);
    let (mut logged, _) =
        add_timewarp_buffer_components::<u32, true>(&entity(), &55, &clock(8), &config);
    assert!(logged.correction_logging_enabled);
    logged.insert(12, 1, &entity());
    assert_eq!(logged.at_frame(8), None);
}

#[test]
fn births_count_outside_of_rollbacks_only() {
    let mut history = history_of(1..3);
    history.report_death_at_frame(3);
    let rollback = Rollback::new(2, 6);
    record_component_added_to_alive_ranges(&mut history, &clock(5), Some(&rollback));
    assert_eq!(history.alive_ranges, vec![(1, Some(3))]);
    record_component_added_to_alive_ranges(&mut history, &clock(5), None);
    assert_eq!(history.alive_ranges, vec![(1, Some(3)), (5, None)]);
}

#[test]
fn deaths_are_recorded() {
    let mut history = history_of(1..6);
    record_component_removed_to_alive_ranges(&mut history, &clock(6));
    assert_eq!(history.alive_ranges, vec![(1, Some(6))]);
    let mut despawning = history_of(1..6);
    remove_components_from_entities_with_freshly_added_despawn_markers(&mut despawning, &clock(7));
    assert_eq!(despawning.alive_ranges, vec![(1, Some(7))]);
}

#[test]
fn values_are_recorded_at_the_current_frame() {
    let mut history = history_of(1..4);
    assert!(record_component_history_values(&entity(), &44, &mut history, &clock(4)).is_none());
    assert_eq!(history.at_frame(4), Some(&44));
    assert_eq!(history.at_frame(3), Some(&30));
}

#[test]
fn a_correction_is_due_once() {
    let mut history = history_of(1..8);
    history.enable_correction_logging();
    let snapshot = snapshot_at(5, 51);
    let mut queue = RollbackRequests::new();
    apply_snapshots_and_rollback_for_non_anachronous(
        &entity(),
        &mut history,
        &snapshot,
        &clock(7),
        &mut queue,
    );
    assert_eq!(history.diff_at_frame, Some(7));
    assert!(record_component_history_values(&entity(), &61, &mut history, &clock(6)).is_none());
    let correction =
        record_component_history_values(&entity(), &71, &mut history, &clock(7)).unwrap();
    assert_eq!((correction.before, correction.after, correction.frame), (70, 71, 7));
    assert_eq!(history.diff_at_frame, None);
    assert_eq!(history.at_frame(7), Some(&71));
    assert!(record_component_history_values(&entity(), &72, &mut history, &clock(7)).is_none());
}

#[test]
fn no_correction_without_a_difference() {
    let mut history = history_of(1..8);
    history.enable_correction_logging();
    history.diff_at_frame = Some(7);
    assert!(record_component_history_values(&entity(), &70, &mut history, &clock(7)).is_none());
    assert_eq!(history.diff_at_frame, None);
}

#[test]
fn no_correction_without_logging() {
    let mut history = history_of(1..8);
    history.diff_at_frame = Some(7);
    assert!(record_component_history_values(&entity(), &71, &mut history, &clock(7)).is_none());
    assert_eq!(history.diff_at_frame, Some(7));
}

#[test]
fn insertion_into_existing_buffers() {
    let config = TimewarpConfig { rollback_window: 20 };
    let mut history = history_of(1..4);
    history.report_death_at_frame(4);
    let mut snapshot = ServerSnapshot::with_capacity(50);
    let mut queue = RollbackRequests::new();
    let new = insert_components_at_prior_frames(
        &entity(),
        &InsertComponentAtFrame::new(6, 600),
        Some(&mut history),
        Some(&mut snapshot),
        &config,
        &mut queue,
    );
    assert!(new.0.is_none() && new.1.is_none());
    assert_eq!(history.at_frame(6), Some(&600));
    assert_eq!(history.alive_ranges, vec![(1, Some(4)), (6, None)]);
    assert_eq!(history.most_recent_authoritative_frame, 6);
    assert_eq!(snapshot.at_frame(6), Some(&600));
    assert_eq!(asked_for(&mut queue), Some(6));
    match rollback_initiated_for_component(&Rollback::new(6, 9), None, &history, None) {
        Restoration::Insert(val) => assert_eq!(val, 600),
        _ => panic!("the component comes to life"),
    }
}

#[test]
fn insertion_with_new_buffers() {
    let config = TimewarpConfig { rollback_window: 2 };
    let mut queue = RollbackRequests::new();
    let (history, snapshot) = insert_components_at_prior_frames(
        &entity(),
        &InsertComponentAtFrame::new(6, 600),
        None,
        None,
        &config,
        &mut queue,
    );
    let mut history = history.unwrap();
    let mut snapshot = snapshot.unwrap();
    assert_eq!(history.at_frame(6), Some(&600));
    assert_eq!(history.alive_ranges, vec![(6, None)]);
    assert_eq!(history.most_recent_authoritative_frame, 6);
    assert_eq!(snapshot.at_frame(6), Some(&600));
    history.insert(8, 8, &entity());
    assert_eq!(history.at_frame(6), None);
    snapshot.insert(125, 1);
    assert_eq!(snapshot.at_frame(6), Some(&600));
    snapshot.insert(126, 1);
    assert_eq!(snapshot.at_frame(6), None);
    assert_eq!(asked_for(&mut queue), Some(6));
}

#[test]
fn a_new_snapshot_is_taken_over_once() {
    let mut history = history_of(1..8);
    let snapshot = snapshot_at(5, 51);
    let mut queue = RollbackRequests::new();
    apply_snapshots_and_rollback_for_non_anachronous(
        &entity(),
        &mut history,
        &snapshot,
        &clock(7),
        &mut queue,
    );
    assert_eq!(history.at_frame(5), Some(&51));
    assert_eq!(history.most_recent_authoritative_frame, 5);
    assert_eq!(history.diff_at_frame, None);
    assert_eq!(asked_for(&mut queue), Some(5));
    apply_snapshots_and_rollback_for_non_anachronous(
        &entity(),
        &mut history,
        &snapshot,
        &clock(7),
        &mut queue,
    );
    assert_eq!(asked_for(&mut queue), None);
    match rollback_initiated_for_component(&Rollback::new(5, 7), Some(&70), &history, None) {
        Restoration::Assign(val) => assert_eq!(val, 51),
        _ => panic!("the snapshot is loaded"),
    }
}

#[test]
fn a_snapshot_that_was_predicted_changes_nothing() {
    let mut history = history_of(1..8);
    let mut queue = RollbackRequests::new();
    apply_snapshots_and_rollback_for_non_anachronous(
        &entity(),
        &mut history,
        &snapshot_at(5, 50),
        &clock(7),
        &mut queue,
    );
    assert_eq!(history.most_recent_authoritative_frame, 0);
    assert_eq!(asked_for(&mut queue), None);
}

#[test]
fn a_snapshot_without_prediction_is_taken_over() {
    let mut history = history_of(1..4);
    let mut queue = RollbackRequests::new();
    apply_snapshots_and_rollback_for_non_anachronous(
        &entity(),
        &mut history,
        &snapshot_at(6, 60),
        &clock(7),
        &mut queue,
    );
    assert_eq!(history.at_frame(6), Some(&60));
    assert_eq!(asked_for(&mut queue), Some(6));
    let empty = ServerSnapshot::with_capacity(5);
    apply_snapshots_and_rollback_for_non_anachronous(
        &entity(),
        &mut history,
        &empty,
        &clock(7),
        &mut queue,
    );
    assert_eq!(asked_for(&mut queue), None);
}

#[test]
fn a_held_back_entity_rolls_back_to_its_snapshot() {
    let mut history = history_of(1..20);
    let anachronous = Anachronous::new(5);
    let mut queue = RollbackRequests::new();
    trigger_rollbacks_for_anachronous_entities_when_snapshots_arrive(
        &entity(),
        &anachronous,
        &snapshot_at(12, 121),
        &mut history,
        &clock(19),
        &mut queue,
    );
    assert_eq!(history.at_frame(12), Some(&121));
    assert_eq!(history.most_recent_authoritative_frame, 12);
    assert_eq!(asked_for(&mut queue), Some(17));
    let rollback = Rollback::new(17, 19);
    match rollback_initiated_for_component(&rollback, Some(&1), &history, Some(&anachronous)) {
        Restoration::Assign(val) => assert_eq!(val, 121),
        _ => panic!("the snapshot is loaded"),
    }
}

#[test]
fn a_snapshot_ahead_of_a_held_back_entity_is_left() {
    let mut history = history_of(1..20);
    let mut queue = RollbackRequests::new();
    for (frames_behind, now) in [(5, 16), (30, 16)] {
        trigger_rollbacks_for_anachronous_entities_when_snapshots_arrive(
            &entity(),
            &Anachronous::new(frames_behind),
            &snapshot_at(12, 121),
            &mut history,
            &clock(now),
            &mut queue,
        );
    }
    trigger_rollbacks_for_anachronous_entities_when_snapshots_arrive(
        &entity(),
        &Anachronous::new(1),
        &ServerSnapshot::with_capacity(5),
        &mut history,
        &clock(9),
        &mut queue,
    );
    assert_eq!(history.at_frame(12), Some(&120));
    assert_eq!(history.most_recent_authoritative_frame, 0);
    assert_eq!(asked_for(&mut queue), None);
}

#[test]
fn a_held_back_entity_snaps_on_the_way() {
    let mut history = history_of(1..20);
    let anachronous = Anachronous::new(5);
    let snapshot = snapshot_at(12, 121);
    let at = |history: &mut ComponentHistory<u32>, frame: u32| {
        apply_snapshots_and_snap_for_anachronous(
            &entity(),
            history,
            &snapshot,
            &anachronous,
            &clock(frame),
        )
    };
    assert_eq!(at(&mut history, 16), None);
    assert_eq!(at(&mut history, 18), None);
    assert_eq!(at(&mut history, 17), Some(121));
    assert_eq!(history.at_frame(17), Some(&121));
    assert_eq!(history.at_frame(12), Some(&120));
    assert_eq!(history.most_recent_authoritative_frame, 17);
    assert_eq!(at(&mut history, 17), None);
}

#[test]
fn a_snapshot_takes_effect_on_the_way_after_an_earlier_one() {
    let mut history = history_of(1..20);
    let anachronous = Anachronous::new(5);
    let mut snapshot = snapshot_at(12, 121);
    let mut queue = RollbackRequests::new();
    let mut snapped = Vec::new();
    for (newest, now) in [(12, 19), (14, 21)] {
        snapshot.insert(newest, newest * 10 + 1);
        trigger_rollbacks_for_anachronous_entities_when_snapshots_arrive(
            &entity(),
            &anachronous,
            &snapshot,
            &mut history,
            &clock(now),
            &mut queue,
        );
        assert_eq!(asked_for(&mut queue), Some(newest + 5));
        for frame in newest..newest + 6 {
            if let Some(val) = apply_snapshots_and_snap_for_anachronous(
                &entity(),
                &mut history,
                &snapshot,
                &anachronous,
                &clock(frame),
            ) {
                snapped.push((frame, val));
            }
            record_component_history_values(&entity(), &1, &mut history, &clock(frame));
        }
    }
    assert_eq!(snapped, vec![(17, 121), (19, 141)]);
}

#[test]
fn no_snapshots_no_snap() {
    let mut history = history_of(1..4);
    let snapped = apply_snapshots_and_snap_for_anachronous(
        &entity(),
        &mut history,
        &ServerSnapshot::with_capacity(5),
        &Anachronous::new(1),
        &clock(3),
    );
    assert_eq!(snapped, None);
}

#[test]
fn a_rollback_runs_its_range() {
    let period = Period { secs: 0, nanos: 16_666_667 };
    let mut game_clock = clock(9);
    let mut rollback = Rollback::new(6, 9);
    let mut fixed_period = period;
    let mut stats = RollbackStats::default();
    rollback_initiated(&mut game_clock, &mut rollback, &mut fixed_period, &mut stats);
    assert_eq!(game_clock.frame(), 6);
    assert_eq!(fixed_period, Period { secs: 0, nanos: 0 });
    assert_eq!(rollback.original_period, Some(period));
    assert_eq!(rollback.range, 6..9);
    assert_eq!(stats.num_rollbacks, 1);
    for frame in 6..9 {
        game_clock.set(frame);
        assert!(check_for_rollback_completion(&game_clock, &rollback, &mut fixed_period).is_none());
        assert_eq!(fixed_period, Period::zero());
    }
    game_clock.set(9);
    let previous =
        check_for_rollback_completion(&game_clock, &rollback, &mut fixed_period).unwrap();
    assert_eq!(previous.0.range, 6..9);
    assert_eq!(previous.0.original_period, Some(period));
    assert_eq!(fixed_period, period);
}

#[test]
fn an_empty_rollback_is_over_at_once() {
    let mut fixed_period = Period { secs: 2, nanos: 0 };
    let mut rollback = Rollback::new(5, 5);
    let mut game_clock = clock(5);
    let mut stats = RollbackStats { num_rollbacks: 6 };
    rollback_initiated(&mut game_clock, &mut rollback, &mut fixed_period, &mut stats);
    assert_eq!(stats.num_rollbacks, 7);
    assert!(check_for_rollback_completion(&game_clock, &rollback, &mut fixed_period).is_some());
    assert_eq!(fixed_period, Period { secs: 2, nanos: 0 });
}

#[test]
fn presence_follows_life() {
    let mut history = history_of(3..9);
    history.report_death_at_frame(7);
    let reinserted = |history: &ComponentHistory<u32>, frame: u32| {
        reinsert_components_removed_during_rollback_at_correct_frame(history, &clock(frame))
    };
    assert_eq!(reinserted(&history, 2), None);
    assert_eq!(reinserted(&history, 3), Some(30));
    assert_eq!(reinserted(&history, 6), Some(60));
    assert_eq!(reinserted(&history, 7), None);
    let removed = |history: &mut ComponentHistory<u32>, frame: u32| {
        reremove_components_inserted_during_rollback_at_correct_frame(history, &clock(frame))
    };
    assert!(!removed(&mut history, 6));
    assert_eq!(history.at_frame(8), Some(&80));
    assert!(removed(&mut history, 7));
    assert_eq!(history.at_frame(6), Some(&60));
    assert_eq!(history.at_frame(7), None);
    assert_eq!(history.at_frame(8), None);
}

#[test]
fn presence_is_settled() {
    let mut history = history_of(3..9);
    history.report_death_at_frame(7);
    assert_eq!(
        reinsert_components_removed_during_rollback_at_correct_frame(&history, &clock(5)),
        Some(50)
    );
    assert!(!reremove_components_inserted_during_rollback_at_correct_frame(
        &mut history,
        &clock(5)
    ));
    assert_eq!(history.at_frame(5), Some(&50));
    assert!(reremove_components_inserted_during_rollback_at_correct_frame(
        &mut history,
        &clock(7)
    ));
    assert_eq!(
        reinsert_components_removed_during_rollback_at_correct_frame(&history, &clock(7)),
        None
    );
    assert!(history.alive_at_frame(6));
    assert!(!history.alive_at_frame(7));
}

#[test]
fn components_are_restored() {
    let mut history = history_of(3..9);
    history.report_death_at_frame(7);
    let restored = |start: u32, present: Option<&u32>| {
        rollback_initiated_for_component(&Rollback::new(start, 9), present, &history, None)
    };
    assert!(matches!(restored(2, None), Restoration::Dead));
    assert!(matches!(restored(2, Some(&1)), Restoration::Remove));
    assert!(matches!(restored(7, Some(&1)), Restoration::Remove));
    assert!(matches!(restored(5, Some(&1)), Restoration::Assign(50)));
    assert!(matches!(restored(5, None), Restoration::Insert(50)));
    let unrecorded: ComponentHistory<u32> = ComponentHistory::with_capacity(5, 1);
    assert!(matches!(
        rollback_initiated_for_component(&Rollback::new(4, 9), None, &unrecorded, None),
        Restoration::NotRecorded
    ));
    assert!(matches!(
        rollback_initiated_for_component(
            &Rollback::new(8, 9),
            Some(&1),
            &history,
            Some(&Anachronous::new(4))
        ),
        Restoration::Assign(40)
    ));
}

#[test]
fn a_rollback_restores_what_was_recorded() {
    let mut history = ComponentHistory::with_capacity(5, 1);
    for frame in 1..11 {
        record_component_history_values(&entity(), &(frame * 3), &mut history, &clock(frame));
    }
    for frame in 6..11 {
        match rollback_initiated_for_component(&Rollback::new(frame, 11), None, &history, None) {
            Restoration::Insert(val) => assert_eq!(val, frame * 3),
            _ => panic!("the frame is in the window"),
        }
    }
    assert!(matches!(
        rollback_initiated_for_component(&Rollback::new(5, 11), None, &history, None),
        Restoration::NotRecorded
    ));
}

#[test]
fn a_perfect_simulation_arrives_at_the_same_values() {
    let step = |val: u32| val * 3 % 101;
    let mut history = ComponentHistory::with_capacity(8, 1);
    let mut val = 7;
    for frame in 1..9 {
        record_component_history_values(&entity(), &val, &mut history, &clock(frame));
        val = step(val);
    }
    history.enable_correction_logging();
    history.diff_at_frame = Some(8);
    let before: Vec<Option<u32>> = (0..12).map(|f| history.at_frame(f).copied()).collect();
    let restored = rollback_initiated_for_component(&Rollback::new(4, 8), None, &history, None);
    let mut val = match restored {
        Restoration::Insert(val) => val,
        _ => panic!("the frame is in the window"),
    };
    for frame in 4..9 {
        let correction =
            record_component_history_values(&entity(), &val, &mut history, &clock(frame));
        assert!(correction.is_none());
        val = step(val);
    }
    let after: Vec<Option<u32>> = (0..12).map(|f| history.at_frame(f).copied()).collect();
    assert_eq!(before, after);
    assert_eq!(history.diff_at_frame, None);
}

#[test]
fn despawn_waits_for_the_window() {
    let config = TimewarpConfig { rollback_window: 10 };
    let mut marker = DespawnMarker::new();
    add_frame_to_freshly_added_despawn_markers(&mut marker, &clock(4));
    assert_eq!(marker.0, Some(4));
    add_frame_to_freshly_added_despawn_markers(&mut marker, &clock(6));
    assert_eq!(marker.0, Some(4));
    for frame in 4..20 {
        assert_eq!(
            do_actual_despawn_after_rollback_frames_from_despawn_marker(
                &marker,
                &clock(frame),
                &config
            ),
            frame == 14
        );
    }
}
