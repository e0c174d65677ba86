use wish_sim::{focus_target, pick_pool, Banner, PityState, Pool};

#[test]
fn pool_choice_by_roll() {
    assert_eq!(pick_pool(6, 51, false, false, 5, false), Pool::Fivestar);
    assert_eq!(pick_pool(6, 51, false, false, 5, true), Pool::FivestarFocus);
    assert_eq!(pick_pool(6, 51, true, false, 5, false), Pool::FivestarFocus);
    assert_eq!(pick_pool(6, 51, false, false, 6, false), Pool::Fourstar);
    assert_eq!(pick_pool(6, 51, false, true, 56, false), Pool::FourstarFocus);
    assert_eq!(pick_pool(6, 51, false, false, 57, true), Pool::Threestar);
    assert_eq!(pick_pool(1026, 51, false, false, 999, false), Pool::Fivestar);
    assert_eq!(pick_pool(0, 0, true, true, 0, true), Pool::Threestar);
}

#[test]
fn focus_slot_resolution() {
    let b = Banner { focus_sizes: [1, 2, 3, 1], ..Banner::default() };
    assert_eq!(focus_target(&b, Pool::FivestarFocus, false, 0), Some((0, 0)));
    assert_eq!(focus_target(&b, Pool::FivestarFocus, false, 1), Some((1, 0)));
    assert_eq!(focus_target(&b, Pool::FivestarFocus, false, 2), Some((1, 1)));
    assert_eq!(focus_target(&b, Pool::FourstarFocus, false, 2), Some((2, 2)));
    assert_eq!(focus_target(&b, Pool::FourstarFocus, false, 3), Some((3, 0)));
    assert_eq!(focus_target(&b, Pool::Fivestar, false, 0), None);
    assert_eq!(focus_target(&b, Pool::Threestar, false, 0), None);
    assert_eq!(focus_target(&b, Pool::Fivestar, true, 0), Some((1, 0)));
    let no_top = Banner { focus_sizes: [0, 0, 3, 0], ..Banner::default() };
    assert_eq!(focus_target(&no_top, Pool::FivestarFocus, false, 0), None);
}

#[test]
fn pity_after_each_outcome() {
    let s = PityState { five_count: 40, four_count: 5, five_guarantee: false, four_guarantee: false, capturing_points: 0 };
    let (n, p) = s.after_draw(Pool::Threestar, false, false);
    assert_eq!((n.five_count, n.four_count, p), (41, 6, Pool::Threestar));
    let (n, p) = s.after_draw(Pool::Fourstar, false, false);
    assert_eq!((n.five_count, n.four_count, n.four_guarantee, p), (41, 1, true, Pool::Fourstar));
    let (n, _) = n.after_draw(Pool::FourstarFocus, false, false);
    assert!(!n.four_guarantee);
    let (n, p) = s.after_draw(Pool::Fivestar, false, false);
    assert_eq!((n.five_count, n.four_count, n.five_guarantee, p), (1, 6, true, Pool::Fivestar));
    let (n, p) = n.after_draw(Pool::FivestarFocus, false, false);
    assert_eq!((n.five_count, n.five_guarantee, p), (1, false, Pool::FivestarFocus));
}

#[test]
fn capturing_radiance_points() {
    let start = PityState::start();
    assert_eq!(start, PityState { five_count: 1, four_count: 1, five_guarantee: false, four_guarantee: false, capturing_points: 0 });
    let (one, p) = start.after_draw(Pool::Fivestar, true, false);
    assert_eq!((one.capturing_points, one.five_guarantee, p), (1, true, Pool::Fivestar));
    let (guaranteed, _) = one.after_draw(Pool::FivestarFocus, true, false);
    assert_eq!(guaranteed.capturing_points, 1);
    let two = PityState { capturing_points: 2, ..start };
    let (won, p) = two.after_draw(Pool::Fivestar, true, true);
    assert_eq!((won.capturing_points, won.five_guarantee, p), (0, false, Pool::FivestarFocus));
    let (lost, p) = two.after_draw(Pool::Fivestar, true, false);
    assert_eq!((lost.capturing_points, lost.five_guarantee, p), (3, true, Pool::Fivestar));
    let three = PityState { capturing_points: 3, ..start };
    let (n, p) = three.after_draw(Pool::Fivestar, true, false);
    assert_eq!((n.capturing_points, p), (0, Pool::FivestarFocus));
    let (n, _) = three.after_draw(Pool::FivestarFocus, true, false);
    assert_eq!(n.capturing_points, 0);
}

#[test]
fn rate_change_sets_banner_type_focus() {
    let mut b = Banner::default();
    b.set_rates(7, 60, (75, 25), 62, 7);
    assert_eq!(b.focus_sizes, [0, 2, 0, 5]);
    assert_eq!((b.five_rate, b.four_rate, b.five_pity, b.four_pity), (7, 60, 62, 7));
    b.set_rates(6, 51, (100, 0), 73, 8);
    assert_eq!(b.focus_sizes, [5, 10, 16, 18]);
    b.set_rates(6, 51, (50, 50), 73, 8);
    assert_eq!(b.focus_sizes, [1, 0, 3, 0]);
    b.focus_sizes = [2, 2, 2, 2];
    b.set_rates(6, 51, (55, 45), 73, 8);
    assert_eq!(b.focus_sizes, [2, 2, 2, 2]);
    assert_eq!(b.split_rates, (55, 45));
}
