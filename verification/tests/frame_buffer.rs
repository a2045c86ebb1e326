use timewarp::frame_buffer::FrameBuffer;

fn recorded(capacity: usize, from: u32, to: u32) -> FrameBuffer<u32> {
    let mut buffer = FrameBuffer::with_capacity(capacity);
    for frame in from..to {
        assert!(buffer.insert(frame, frame * 10));
    }
    buffer
}

#[test]
fn empty_buffer_has_no_newest_frame() {
    let buffer: FrameBuffer<u32> = FrameBuffer::with_capacity(4);
    assert_eq!(buffer.newest_frame(), 0);
    assert_eq!(buffer.get(0), None);
    assert_eq!(buffer.get(7), None);
}

#[test]
fn a_value_is_read_back() {
    let mut buffer = FrameBuffer::with_capacity(4);
    assert!(buffer.insert(7, "seven"));
    assert_eq!(buffer.get(7), Some(&"seven"));
    assert_eq!(buffer.get(6), None);
    assert_eq!(buffer.get(8), None);
    assert_eq!(buffer.newest_frame(), 7);
}

#[test]
fn frame_zero_can_be_stored() {
    let mut buffer = FrameBuffer::with_capacity(4);
    assert!(buffer.insert(0, 1));
    assert_eq!(buffer.get(0), Some(&1));
    assert_eq!(buffer.newest_frame(), 0);
    assert!(buffer.insert(2, 3));
    assert_eq!(buffer.get(0), Some(&1));
    assert_eq!(buffer.get(1), None);
    assert_eq!(buffer.newest_frame(), 2);
}

#[test]
fn last_insert_wins() {
    let mut buffer = recorded(5, 1, 6);
    assert!(buffer.insert(3, 333));
    assert_eq!(buffer.get(3), Some(&333));
    assert_eq!(buffer.get(2), Some(&20));
    assert_eq!(buffer.get(4), Some(&40));
    assert_eq!(buffer.newest_frame(), 5);
}

#[test]
fn a_run_is_held_for_capacity_frames() {
    let buffer = recorded(3, 1, 10);
    assert_eq!(buffer.newest_frame(), 9);
    assert_eq!(buffer.get(6), None);
    assert_eq!(buffer.get(7), Some(&70));
    assert_eq!(buffer.get(8), Some(&80));
    assert_eq!(buffer.get(9), Some(&90));
    assert_eq!(buffer.get(10), None);
}

#[test]
fn gaps_stay_empty() {
    let mut buffer = recorded(6, 1, 3);
    assert!(buffer.insert(6, 60));
    assert_eq!(buffer.get(1), Some(&10));
    assert_eq!(buffer.get(2), Some(&20));
    assert_eq!(buffer.get(3), None);
    assert_eq!(buffer.get(5), None);
    assert_eq!(buffer.get(6), Some(&60));
}

#[test]
fn a_jump_past_the_window_forgets_everything() {
    let mut buffer = recorded(3, 1, 4);
    assert!(buffer.insert(6, 60));
    assert_eq!(buffer.get(3), None);
    assert_eq!(buffer.get(6), Some(&60));
    let mut other = recorded(3, 1, 4);
    assert!(other.insert(5, 50));
    assert_eq!(other.get(3), Some(&30));
    assert_eq!(other.get(2), None);
    let mut far: FrameBuffer<u32> = FrameBuffer::with_capacity(2);
    assert!(far.insert(1, 1));
    assert!(far.insert(u32::MAX, 2));
    assert_eq!(far.get(1), None);
    assert_eq!(far.get(u32::MAX), Some(&2));
}

#[test]
fn too_old_frames_are_refused() {
    let mut buffer = FrameBuffer::with_capacity(3);
    assert!(buffer.insert(10, 100));
    assert!(!buffer.insert(7, 70));
    assert_eq!(buffer.get(7), None);
    assert!(buffer.insert(8, 80));
    assert_eq!(buffer.get(8), Some(&80));
    assert_eq!(buffer.get(9), None);
    assert_eq!(buffer.newest_frame(), 10);
}

#[test]
fn a_buffer_without_capacity_holds_nothing() {
    let mut buffer = FrameBuffer::with_capacity(0);
    assert!(!buffer.insert(3, 30));
    assert_eq!(buffer.get(3), None);
    assert_eq!(buffer.newest_frame(), 0);
}

#[test]
fn inserts_commute() {
    for (a, b) in [(4u32, 6u32), (4, 7), (9, 12), (2, 9), (8, 20)] {
        let mut one = recorded(3, 5, 8);
        one.insert(a, 1000);
        one.insert(b, 2000);
        let mut two = recorded(3, 5, 8);
        two.insert(b, 2000);
        two.insert(a, 1000);
        for frame in 0..25 {
            assert_eq!(one.get(frame), two.get(frame));
        }
        assert_eq!(one.newest_frame(), two.newest_frame());
    }
}

#[test]
fn newer_entries_are_removed() {
    let mut buffer = recorded(10, 1, 8);
    buffer.remove_entries_newer_than(4);
    assert_eq!(buffer.newest_frame(), 4);
    assert_eq!(buffer.get(4), Some(&40));
    assert_eq!(buffer.get(5), None);
    assert!(buffer.insert(5, 55));
    assert_eq!(buffer.get(5), Some(&55));
    assert_eq!(buffer.get(6), None);
    buffer.remove_entries_newer_than(9);
    assert_eq!(buffer.get(5), Some(&55));
}

#[test]
fn removal_goes_back_to_a_frame_with_a_value() {
    let mut buffer = FrameBuffer::with_capacity(10);
    assert!(buffer.insert(2, 20));
    assert!(buffer.insert(7, 70));
    buffer.remove_entries_newer_than(5);
    assert_eq!(buffer.newest_frame(), 2);
    assert_eq!(buffer.get(2), Some(&20));
    buffer.remove_entries_newer_than(1);
    assert_eq!(buffer.newest_frame(), 0);
    assert_eq!(buffer.get(2), None);
}

#[test]
fn clear_removes_frame_zero_too() {
    let mut buffer = FrameBuffer::with_capacity(4);
    assert!(buffer.insert(0, 5));
    buffer.remove_entries_newer_than(0);
    assert_eq!(buffer.get(0), Some(&5));
    buffer.clear();
    assert_eq!(buffer.get(0), None);
}
