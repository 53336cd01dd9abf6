use game_core::track::{AnchorId, LapCounter, Pos, Tether, TrackError, Tragnet, TragnetAnchor};

fn ring_of(n: usize, checkpoints: usize) -> Tragnet {
    // anchors spread along a line; only relative distances matter
    let mut points = Vec::new();
    for i in 0..n {
        points.push(TragnetAnchor { pos: Pos::new(i as i64 * 1000, 0, 0).unwrap() });
    }
    Tragnet::new(points, checkpoints).unwrap()
}

#[test]
fn track_construction_is_validated() {
    assert!(matches!(Tragnet::new(Vec::new(), 3), Err(TrackError::EmptyTrack)));
    let one = vec![TragnetAnchor { pos: Pos::new(0, 0, 0).unwrap() }];
    assert!(matches!(Tragnet::new(one.clone(), 0), Err(TrackError::NoCheckpoints)));
    assert!(matches!(Tragnet::new(one, 40000), Err(TrackError::TrackTooLarge)));
    assert!(Pos::new(2000000, 0, 0).is_none());
}

#[test]
fn nearest_anchor_is_found_with_lowest_index_ties() {
    let t = ring_of(10, 3);
    assert_eq!(t.find_nearest(Pos::new(7100, 50, 0).unwrap()), AnchorId(7));
    // a query exactly between anchors 4 and 5 resolves to the lower index
    assert_eq!(t.find_nearest(Pos::new(4500, 0, 0).unwrap()), AnchorId(4));
}

#[test]
fn lost_tether_acquires_nearest_anchor_at_progress_zero() {
    let t = ring_of(10, 3);
    let mut tether = Tether::Lost;
    let progress = t.update_tether(&mut tether, Pos::new(6900, 0, 0).unwrap(), 2);
    assert_eq!(progress, 0);
    assert_eq!(tether, Tether::Anchor(AnchorId(7)));
}

#[test]
fn window_search_reports_signed_progress() {
    let t = ring_of(10, 3);
    // tethered at anchor 5, observed at anchor 7 one tick later: +2
    let mut tether = Tether::Anchor(AnchorId(5));
    let progress = t.update_tether(&mut tether, Pos::new(7000, 0, 0).unwrap(), 2);
    assert_eq!(progress, 2);
    assert_eq!(tether, Tether::Anchor(AnchorId(7)));

    // observed at anchor 3 instead: backward, negative progress
    let mut tether = Tether::Anchor(AnchorId(5));
    let progress = t.update_tether(&mut tether, Pos::new(3000, 0, 0).unwrap(), 2);
    assert_eq!(progress, -2);
    assert_eq!(tether, Tether::Anchor(AnchorId(3)));

    // standing still reports no movement
    let mut tether = Tether::Anchor(AnchorId(5));
    let progress = t.update_tether(&mut tether, Pos::new(5000, 0, 0).unwrap(), 2);
    assert_eq!(progress, 0);
    assert_eq!(tether, Tether::Anchor(AnchorId(5)));
}

#[test]
fn window_search_sticks_to_best_in_window() {
    let t = ring_of(10, 3);
    // anchor 9 is outside the k=2 window around anchor 5 (anchors 3..=7),
    // so the windowed search cannot discover it: the tether sticks to the
    // best anchor inside the window. Intended behavior, not a defect.
    let mut tether = Tether::Anchor(AnchorId(5));
    let progress = t.update_tether(&mut tether, Pos::new(9000, 0, 0).unwrap(), 2);
    assert_eq!(progress, 2);
    assert_eq!(tether, Tether::Anchor(AnchorId(7)));
}

#[test]
fn window_wraps_around_the_ring() {
    let t = ring_of(10, 3);
    // near the seam: tethered at 0, window covers 8, 9, 0, 1, 2
    let mut tether = Tether::Anchor(AnchorId(0));
    let progress = t.update_tether(&mut tether, Pos::new(9000, 0, 0).unwrap(), 2);
    assert_eq!(progress, -1);
    assert_eq!(tether, Tether::Anchor(AnchorId(9)));
}

#[test]
fn sectors_divide_the_ring_proportionally() {
    let t = ring_of(10, 3);
    assert_eq!(t.get_current_sector(&Tether::Lost), 0);
    assert_eq!(t.get_current_sector(&Tether::Anchor(AnchorId(0))), 0);
    assert_eq!(t.get_current_sector(&Tether::Anchor(AnchorId(3))), 0);
    assert_eq!(t.get_current_sector(&Tether::Anchor(AnchorId(4))), 1);
    assert_eq!(t.get_current_sector(&Tether::Anchor(AnchorId(6))), 1);
    assert_eq!(t.get_current_sector(&Tether::Anchor(AnchorId(7))), 2);
    assert_eq!(t.get_current_sector(&Tether::Anchor(AnchorId(9))), 2);
}

#[test]
fn tether_transform_is_the_anchor_position() {
    let t = ring_of(10, 3);
    let p = t.get_tether_transform(&Tether::Anchor(AnchorId(4)));
    assert_eq!(p, Pos::new(4000, 0, 0).unwrap());
}

#[test]
fn lap_counts_after_full_sector_cycle() {
    // sector observations 0, 1, 2, 0 complete one lap of 3 checkpoints
    let mut lc = LapCounter::at_start(3);
    assert_eq!((lc.lap(), lc.sector()), (0, 0));
    lc.update_sector(0);
    assert_eq!((lc.lap(), lc.sector()), (0, 0));
    lc.update_sector(1);
    assert_eq!((lc.lap(), lc.sector()), (0, 1));
    lc.update_sector(2);
    assert_eq!((lc.lap(), lc.sector()), (0, 2));
    lc.update_sector(0);
    assert_eq!((lc.lap(), lc.sector()), (1, 0));
}

#[test]
fn skipped_sector_is_not_progress() {
    // 0 then 2 skips sector 1: neither sector nor lap advances
    let mut lc = LapCounter::at_start(3);
    lc.update_sector(0);
    lc.update_sector(2);
    assert_eq!((lc.lap(), lc.sector()), (0, 0));
}

#[test]
fn backward_sector_is_not_progress() {
    let mut lc = LapCounter::at_start(3);
    lc.update_sector(1);
    lc.update_sector(2);
    lc.update_sector(1);
    assert_eq!((lc.lap(), lc.sector()), (0, 2));
}
