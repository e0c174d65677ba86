use wish_sim::{Banner, CustomGoal, Goal, GoalKind, GoalPart, GoalPreset, ItemType, PityModel};

fn sample_goals() -> Vec<Goal> {
    vec![
        Goal::Preset(GoalPreset::AnyFive, 1),
        Goal::Preset(GoalPreset::FourWeaponFocus, 255),
        Goal::Custom(CustomGoal { kind: GoalKind::Any, goals: vec![] }),
        Goal::Custom(CustomGoal {
            kind: GoalKind::All,
            goals: vec![
                GoalPart { item_type: ItemType::FiveChar, num_copies: 7, four_star: false },
                GoalPart { item_type: ItemType::FourWeapon, num_copies: 0, four_star: true },
            ],
        }),
    ]
}

fn sample_banners() -> Vec<Banner> {
    vec![
        Banner::default(),
        Banner {
            focus_sizes: [0, 2, -1, 5],
            five_rate: 700,
            four_rate: 300,
            split_rates: (75, 25),
            five_pity: 62,
            four_pity: 7,
            epitomized_path: true,
            capturing_radiance: true,
            pity_model: PityModel::SoftHard { soft_pity: 74, hard_pity: 90, soft_rate: 65535 },
        },
    ]
}

#[test]
fn banner_bytes_round_trip() {
    for b in sample_banners() {
        let bytes = b.to_bytes();
        assert_eq!(Banner::from_bytes(&bytes), Some(b));
    }
}

#[test]
fn default_banner_bytes() {
    assert_eq!(
        Banner::default().to_bytes(),
        vec![1, 0, 3, 0, 6, 0, 51, 0, 55, 45, 73, 0, 8, 0, 0, 0, 0]
    );
}

#[test]
fn truncated_or_extended_banner_bytes_are_refused() {
    let bytes = Banner::default().to_bytes();
    assert_eq!(Banner::from_bytes(&bytes[..16]), None);
    let mut longer = bytes.clone();
    longer.push(0);
    assert_eq!(Banner::from_bytes(&longer), None);
    assert_eq!(Banner::from_bytes(&[]), None);
    let mut bad_flag = bytes.clone();
    bad_flag[14] = 2;
    assert_eq!(Banner::from_bytes(&bad_flag), None);
    let mut bad_tag = bytes;
    bad_tag[16] = 1;
    assert_eq!(Banner::from_bytes(&bad_tag), None);
}

#[test]
fn goal_bytes_round_trip() {
    for g in sample_goals() {
        let bytes = g.to_bytes();
        assert_eq!(Goal::from_bytes(&bytes), Some(g));
    }
}

#[test]
fn goal_bytes_layout() {
    assert_eq!(Goal::Preset(GoalPreset::AnyFiveChar, 6).to_bytes(), vec![1, 1, 6]);
    let g = Goal::Custom(CustomGoal {
        kind: GoalKind::All,
        goals: vec![GoalPart { item_type: ItemType::FourChar, num_copies: 1, four_star: true }],
    });
    assert_eq!(g.to_bytes(), vec![0, 1, 1, 0, 0, 0, 0, 0, 0, 0, 2, 1, 1]);
}

#[test]
fn malformed_goal_bytes_are_refused() {
    assert_eq!(Goal::from_bytes(&[]), None);
    assert_eq!(Goal::from_bytes(&[1]), None);
    assert_eq!(Goal::from_bytes(&[1, 10, 1]), None);
    assert_eq!(Goal::from_bytes(&[1, 0, 1, 0]), None);
    assert_eq!(Goal::from_bytes(&[0, 2, 0, 0, 0, 0, 0, 0, 0, 0]), None);
    assert_eq!(Goal::from_bytes(&[0, 0, 1, 1]), None);
    assert_eq!(Goal::from_bytes(&[0, 0, 1, 0, 0, 0, 0, 0, 0, 0, 4, 1, 0]), None);
    assert_eq!(Goal::from_bytes(&[0, 0, 1, 0, 0, 0, 0, 0, 0, 0, 3, 1, 2]), None);
    assert_eq!(Goal::from_bytes(&[0, 0, 2, 0, 0, 0, 0, 0, 0, 0, 3, 1, 0]), None);
    assert_eq!(
        Goal::from_bytes(&[0, 0, 0, 0, 0, 0, 0, 0, 0, 0]),
        Some(Goal::Custom(CustomGoal { kind: GoalKind::Any, goals: vec![] }))
    );
    assert_eq!(Goal::from_bytes(&[2, 0, 0]), None);
}

#[test]
fn banner_query_string() {
    let s = Banner::default().to_query_string();
    assert_eq!(s, "AQADAAYAMwA3LUkACAAAAAA=");
    assert_eq!(Banner::from_query_string(&s), Some(Banner::default()));
}

#[test]
fn goal_query_string() {
    let g = Goal::Custom(CustomGoal {
        kind: GoalKind::Any,
        goals: vec![
            GoalPart { item_type: ItemType::FourChar, num_copies: 0, four_star: true },
        ],
    });
    let s = g.to_query_string();
    assert_eq!(s, "AAABAAAAAAAAAAIAAQ==");
    assert_eq!(Goal::from_query_string(&s), Some(g));
    assert_eq!(Goal::Preset(GoalPreset::AnyFive, 1).to_query_string(), "AQAB");
}

#[test]
fn query_strings_round_trip() {
    for b in sample_banners() {
        assert_eq!(Banner::from_query_string(&b.to_query_string()), Some(b));
    }
    for g in sample_goals() {
        assert_eq!(Goal::from_query_string(&g.to_query_string()), Some(g));
    }
}

#[test]
fn malformed_query_strings_are_refused() {
    assert_eq!(Banner::from_query_string("not base64!"), None);
    assert_eq!(Banner::from_query_string("AQAB"), None);
    assert_eq!(Goal::from_query_string("%%%"), None);
    assert_eq!(Goal::from_query_string("AQADAAYAMwA3LUkACAAAAAA="), None);
}

#[test]
fn truncated_goal_bytes_are_refused() {
    let g = Goal::Custom(CustomGoal {
        kind: GoalKind::All,
        goals: vec![
            GoalPart { item_type: ItemType::FiveChar, num_copies: 2, four_star: false },
            GoalPart { item_type: ItemType::FourChar, num_copies: 1, four_star: true },
        ],
    });
    let bytes = g.to_bytes();
    assert_eq!(bytes.len(), 16);
    for cut in 0..bytes.len() {
        assert_eq!(Goal::from_bytes(&bytes[..cut]), None, "cut at {}", cut);
    }
    assert_eq!(Goal::from_bytes(&bytes), Some(g));
}
