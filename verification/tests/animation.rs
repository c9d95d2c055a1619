use multiplayer_bevy::animation::AnimationIndices;

#[test]
fn next_frame_advances_within_range() {
    let indices = AnimationIndices { first: 1, last: 6 };
    assert_eq!(indices.next_frame(1), 2);
    assert_eq!(indices.next_frame(5), 6);
}

#[test]
fn next_frame_wraps_after_last() {
    let indices = AnimationIndices { first: 1, last: 6 };
    assert_eq!(indices.next_frame(6), 1);
}

#[test]
fn animation_cycles_back_after_full_period() {
    let indices = AnimationIndices { first: 1, last: 6 };
    let mut frame = 3;
    let mut seen = Vec::new();
    for _ in 0..6 {
        frame = indices.next_frame(frame);
        seen.push(frame);
    }
    assert_eq!(seen, vec![4, 5, 6, 1, 2, 3]);
    assert_eq!(frame, 3);
}

#[test]
fn next_frame_outside_range_moves_up() {
    let indices = AnimationIndices { first: 1, last: 6 };
    assert_eq!(indices.next_frame(0), 1);
    assert_eq!(indices.next_frame(9), 10);
}
