use wish_sim::{
    Banner, ConfigError, CustomGoal, Goal, GoalData, GoalKind, GoalPart, GoalPreset, ItemType,
    PityModel, Sim,
};

fn two_part_goal(kind: GoalKind) -> Goal {
    Goal::Custom(CustomGoal {
        kind,
        goals: vec![
            GoalPart { item_type: ItemType::FiveChar, num_copies: 1, four_star: false },
            GoalPart { item_type: ItemType::FiveWeapon, num_copies: 1, four_star: false },
        ],
    })
}

fn mean_draws(banner: Banner, goal: Goal, seed: u64, trials: u32) -> f64 {
    let mut sim = Sim::with_seed(banner, goal, seed).unwrap();
    let mut total: u64 = 0;
    for _ in 0..trials {
        total += sim.roll_until_goal().unwrap() as u64;
    }
    total as f64 / trials as f64
}

#[test]
fn construction_fails_on_bad_split() {
    let b = Banner { split_rates: (60, 60), ..Banner::default() };
    assert!(matches!(Sim::new(b, Goal::default()), Err(ConfigError::SplitNotHundred)));
    let b = Banner { focus_sizes: [1, -1, 0, 0], ..Banner::default() };
    assert!(matches!(Sim::with_seed(b, Goal::default(), 1), Err(ConfigError::NegativeFocusSize)));
    assert!(Sim::new(Banner::default(), Goal::default()).is_ok());
}

#[test]
fn every_trial_takes_at_least_one_draw() {
    let mut sim = Sim::with_seed(Banner::default(), Goal::default(), 7).unwrap();
    for _ in 0..2000 {
        let n = sim.roll_until_goal().unwrap();
        assert!(n >= 1);
    }
}

#[test]
fn goal_met_from_the_start_ends_after_one_draw() {
    let empty = Goal::Custom(CustomGoal { kind: GoalKind::All, goals: vec![] });
    let mut sim = Sim::with_seed(Banner::default(), empty, 3).unwrap();
    assert_eq!(sim.roll_until_goal(), Some(1));
    let free = Goal::Custom(CustomGoal {
        kind: GoalKind::Any,
        goals: vec![
            GoalPart { item_type: ItemType::FiveChar, num_copies: 9, four_star: false },
            GoalPart { item_type: ItemType::FourChar, num_copies: 0, four_star: false },
        ],
    });
    let mut sim = Sim::with_seed(Banner::default(), free, 3).unwrap();
    assert_eq!(sim.roll_until_goal(), Some(1));
}

#[test]
fn any_goal_ends_no_later_than_all_goal() {
    let banner = Banner { focus_sizes: [1, 1, 3, 0], ..Banner::default() };
    for seed in 0..200u64 {
        let mut any = Sim::with_seed(banner, two_part_goal(GoalKind::Any), seed).unwrap();
        let mut all = Sim::with_seed(banner, two_part_goal(GoalKind::All), seed).unwrap();
        let a = any.roll_until_goal().unwrap();
        let b = all.roll_until_goal().unwrap();
        assert!(a <= b, "seed {}: any {} > all {}", seed, a, b);
    }
}

#[test]
fn all_goal_needs_every_part() {
    let banner = Banner { focus_sizes: [1, 1, 3, 0], split_rates: (100, 0), ..Banner::default() };
    let mut sim = Sim::with_seed(banner, two_part_goal(GoalKind::All), 11).unwrap();
    let mut saw_more_than_one_pity = false;
    for _ in 0..500 {
        let n = sim.roll_until_goal().unwrap();
        if n > 90 {
            saw_more_than_one_pity = true;
        }
    }
    assert!(saw_more_than_one_pity);
}

#[test]
fn same_seed_same_trials() {
    let mut a = Sim::with_seed(Banner::default(), Goal::default(), 42).unwrap();
    let mut b = Sim::with_seed(Banner::default(), Goal::default(), 42).unwrap();
    for _ in 0..100 {
        assert_eq!(a.roll_until_goal(), b.roll_until_goal());
    }
}

#[test]
fn hard_pity_bounds_every_trial() {
    let banner = Banner { split_rates: (100, 0), ..Banner::default() };
    let mut sim = Sim::with_seed(banner, Goal::Preset(GoalPreset::AnyFive, 1), 2024).unwrap();
    for _ in 0..10_000 {
        let n = sim.roll_until_goal().unwrap();
        assert!(n <= 90);
    }
    let soft = Banner {
        split_rates: (100, 0),
        pity_model: PityModel::SoftHard { soft_pity: 74, hard_pity: 90, soft_rate: 60 },
        ..Banner::default()
    };
    let mut sim = Sim::with_seed(soft, Goal::Preset(GoalPreset::AnyFive, 1), 2025).unwrap();
    for _ in 0..10_000 {
        let n = sim.roll_until_goal().unwrap();
        assert!(n <= 90);
    }
}

#[test]
fn guarantee_bounds_trials_after_a_lost_split() {
    let mut sim = Sim::with_seed(Banner::default(), Goal::Preset(GoalPreset::AnyFive, 1), 5).unwrap();
    for _ in 0..5_000 {
        let n = sim.roll_until_goal().unwrap();
        assert!(n <= 180);
    }
}

#[test]
fn later_pity_needs_no_fewer_draws() {
    let goal = Goal::Preset(GoalPreset::AnyFive, 1);
    let early = Banner { split_rates: (100, 0), five_pity: 60, ..Banner::default() };
    let late = Banner { split_rates: (100, 0), five_pity: 80, ..Banner::default() };
    let m_early = mean_draws(early, goal.clone(), 1, 10_000);
    let m_late = mean_draws(late, goal.clone(), 2, 10_000);
    assert!(m_late + 1.0 >= m_early, "{} vs {}", m_early, m_late);
    let soft_early = Banner {
        split_rates: (100, 0),
        pity_model: PityModel::SoftHard { soft_pity: 60, hard_pity: 75, soft_rate: 100 },
        ..Banner::default()
    };
    let soft_late = Banner {
        split_rates: (100, 0),
        pity_model: PityModel::SoftHard { soft_pity: 74, hard_pity: 90, soft_rate: 100 },
        ..Banner::default()
    };
    let s_early = mean_draws(soft_early, goal.clone(), 3, 10_000);
    let s_late = mean_draws(soft_late, goal, 4, 10_000);
    assert!(s_late + 1.0 >= s_early, "{} vs {}", s_early, s_late);
}

#[test]
fn mid_tier_goal_is_met() {
    let goal = Goal::Preset(GoalPreset::FourCharFocus, 3);
    let mut sim = Sim::with_seed(Banner::default(), goal, 9).unwrap();
    for _ in 0..500 {
        let n = sim.roll_until_goal().unwrap();
        assert!(n >= 3);
    }
}

#[test]
fn special_mechanics_still_meet_goals() {
    let weapon = Banner {
        focus_sizes: [0, 2, 0, 5],
        five_rate: 7,
        four_rate: 60,
        split_rates: (75, 25),
        five_pity: 62,
        four_pity: 7,
        epitomized_path: true,
        capturing_radiance: false,
        pity_model: PityModel::Escalating,
    };
    let mut sim = Sim::with_seed(weapon, Goal::Preset(GoalPreset::FiveWeaponFocus, 1), 17).unwrap();
    for _ in 0..2_000 {
        assert!(sim.roll_until_goal().unwrap() >= 1);
    }
    let radiance = Banner { capturing_radiance: true, ..Banner::default() };
    let mut sim = Sim::with_seed(radiance, Goal::Preset(GoalPreset::AnyFive, 1), 18).unwrap();
    for _ in 0..2_000 {
        assert!(sim.roll_until_goal().unwrap() <= 180);
    }
}

#[test]
fn unreachable_goal_gives_up() {
    let banner = Banner { focus_sizes: [0, 0, 3, 0], ..Banner::default() };
    let goal = Goal::Custom(CustomGoal {
        kind: GoalKind::All,
        goals: vec![GoalPart { item_type: ItemType::FiveChar, num_copies: 1, four_star: false }],
    });
    assert!(!goal.is_available(&banner));
    let mut sim = Sim::with_seed(banner, goal, 1).unwrap();
    assert_eq!(sim.roll_until_goal(), None);
}

fn progress_for(kind: GoalKind) -> (GoalData, CustomGoal) {
    let goal = CustomGoal {
        kind,
        goals: vec![
            GoalPart { item_type: ItemType::FiveChar, num_copies: 2, four_star: false },
            GoalPart { item_type: ItemType::FourChar, num_copies: 1, four_star: false },
            GoalPart { item_type: ItemType::FourChar, num_copies: 1, four_star: false },
        ],
    };
    let mut data = GoalData::new();
    data.reset(&goal);
    (data, goal)
}

#[test]
fn progress_under_all() {
    let (mut data, _) = progress_for(GoalKind::All);
    assert_eq!(data.items_needed, [true, false, true, false]);
    assert_eq!(data.copies_needed[0], vec![2]);
    assert_eq!(data.copies_needed[2], vec![1, 1]);
    data.record_hit(GoalKind::All, 2, 5);
    assert_eq!(data.copies_needed[2], vec![1, 1]);
    data.record_hit(GoalKind::All, 0, 0);
    assert_eq!(data.copies_needed[0], vec![1]);
    data.record_hit(GoalKind::All, 2, 1);
    assert_eq!(data.copies_needed[2], vec![1]);
    assert!(data.items_needed[2]);
    data.record_hit(GoalKind::All, 2, 0);
    assert!(!data.items_needed[2]);
    assert!(!data.is_met());
    data.record_hit(GoalKind::All, 0, 0);
    assert!(data.is_met());
}

#[test]
fn progress_under_any() {
    let (mut data, _) = progress_for(GoalKind::Any);
    data.record_hit(GoalKind::Any, 0, 0);
    assert!(!data.is_met());
    data.record_hit(GoalKind::Any, 2, 1);
    assert!(data.is_met());
    assert_eq!(data.items_needed, [false, false, false, false]);
}

#[test]
fn reset_reuses_state_between_goals() {
    let (mut data, goal) = progress_for(GoalKind::All);
    data.record_hit(GoalKind::All, 2, 0);
    data.reset(&goal);
    assert_eq!(data.copies_needed[2], vec![1, 1]);
    let empty = CustomGoal { kind: GoalKind::All, goals: vec![] };
    data.reset(&empty);
    assert!(data.is_met());
    assert!(data.copies_needed.iter().all(|l| l.is_empty()));
}

fn weapon_banner(epitomized_path: bool) -> Banner {
    Banner {
        focus_sizes: [0, 2, 0, 5],
        five_rate: 7,
        four_rate: 60,
        split_rates: (75, 25),
        five_pity: 62,
        four_pity: 7,
        epitomized_path,
        capturing_radiance: false,
        pity_model: PityModel::Escalating,
    }
}

#[test]
fn epitomized_path_bounds_the_selected_weapon() {
    // Certain top-tier hit by draw 77; the path redirects the second top-tier
    // hit of a trial at the latest.
    let goal = Goal::Preset(GoalPreset::FiveWeaponFocus, 1);
    let mut sim = Sim::with_seed(weapon_banner(true), goal.clone(), 31).unwrap();
    for _ in 0..5_000 {
        assert!(sim.roll_until_goal().unwrap() <= 154);
    }
    let mut plain = Sim::with_seed(weapon_banner(false), goal, 31).unwrap();
    let longest = (0..5_000).map(|_| plain.roll_until_goal().unwrap()).max().unwrap();
    assert!(longest > 154);
}
