use deezer_tui::queue::{extend_cycle, forward_candidates, shuffled_indices};

#[test]
fn forward_candidates_stop_at_the_end_without_repeat() {
    let got = forward_candidates(5, 2, &[], 0, false, false);
    assert_eq!(got, vec![(0, 3), (0, 4)]);
}

#[test]
fn forward_candidates_wrap_once_with_repeat_all() {
    let got: Vec<usize> = forward_candidates(5, 3, &[], 0, false, true)
        .into_iter()
        .map(|(_, idx)| idx)
        .collect();
    // Every other position exactly once, never back to the starting one.
    assert_eq!(got, vec![4, 0, 1, 2]);
}

#[test]
fn forward_candidates_never_outlive_the_queue() {
    for len in [0usize, 1, 2, 7, 64] {
        for start in 0..len.max(1) {
            for repeat in [false, true] {
                let got = forward_candidates(len, start, &[], 0, false, repeat);
                assert!(got.len() < len.max(1), "len={len} start={start}");
                assert!(got.iter().all(|&(_, idx)| idx < len || len == 0));
            }
        }
    }
}

#[test]
fn forward_candidates_follow_the_shuffle_cycle() {
    let order = vec![4, 1, 3, 0, 2];
    let got = forward_candidates(5, 4, &order, 1, true, false);
    assert_eq!(got, vec![(2, 3), (3, 0), (4, 2)]);
}

/// The whole point of a cycle: "repeat all" can only repeat *the shuffle* if
/// the shuffle is a full pass that plays each track exactly once.
#[test]
fn a_shuffle_cycle_covers_every_track_exactly_once() {
    for len in [1usize, 2, 5, 50, 500] {
        for start in [0, len / 2, len.saturating_sub(1)] {
            let order = shuffled_indices(len, start, 0x9E37_79B9_7F4A_7C15);
            assert_eq!(order.len(), len, "len={len} start={start}");
            let mut seen = order.clone();
            seen.sort_unstable();
            assert_eq!(
                seen,
                (0..len).collect::<Vec<_>>(),
                "every index exactly once (len={len} start={start})"
            );
        }
    }
}

#[test]
fn the_playing_track_leads_the_cycle() {
    for start in 0..20usize {
        let order = shuffled_indices(20, start, 0xDEAD_BEEF_CAFE_1234);
        assert_eq!(order[0], start, "cycle must open on the current track");
    }
}

#[test]
fn the_order_is_actually_shuffled() {
    // Not a randomness test — just a guard against returning 0..len as-is.
    let order = shuffled_indices(100, 0, 0x1234_5678_9ABC_DEF0);
    assert_ne!(order, (0..100).collect::<Vec<_>>());
}

#[test]
fn an_empty_queue_yields_an_empty_cycle() {
    assert!(shuffled_indices(0, 0, 42).is_empty());
}

#[test]
fn a_seed_decides_the_cycle() {
    let one = shuffled_indices(30, 4, 7);
    assert_eq!(one, shuffled_indices(30, 4, 7));
    assert_ne!(one, shuffled_indices(30, 4, 8));
}

#[test]
fn every_other_place_is_tried_once_with_repeat_all() {
    let mut places: Vec<usize> = forward_candidates(6, 4, &[], 0, false, true)
        .into_iter()
        .map(|(_, idx)| idx)
        .collect();
    places.sort_unstable();
    assert_eq!(places, vec![0, 1, 2, 3, 5]);
}

#[test]
fn a_growing_queue_extends_its_cycle() {
    let mut order = vec![2, 0, 1];
    extend_cycle(&mut order, 5);
    assert_eq!(order, vec![2, 0, 1, 3, 4]);
}

#[test]
fn places_that_are_not_used_may_be_anything() {
    assert_eq!(
        forward_candidates(3, usize::MAX, &[2, 0, 1], 0, true, false),
        vec![(1, 0), (2, 1)]
    );
    assert_eq!(
        forward_candidates(3, 1, &[], usize::MAX, false, false),
        vec![(usize::MAX, 2)]
    );
    assert!(forward_candidates(0, usize::MAX, &[], usize::MAX, true, true).is_empty());
}
