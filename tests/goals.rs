use wish_sim::{Banner, CustomGoal, Goal, GoalKind, GoalPart, GoalPreset, ItemType, Pool};

fn all_presets() -> Vec<GoalPreset> {
    vec![
    GoalPreset::AnyFive,
    GoalPreset::AnyFiveChar,
    GoalPreset::FiveCharFocus,
    GoalPreset::AnyFiveWeapon,
    GoalPreset::FiveWeaponFocus,
    GoalPreset::AnyFour,
    GoalPreset::AnyFourChar,
    GoalPreset::FourCharFocus,
    GoalPreset::AnyFourWeapon,
    GoalPreset::FourWeaponFocus,
    ]
}

fn part(item_type: ItemType, num_copies: u8, four_star: bool) -> GoalPart {
    GoalPart { item_type, num_copies, four_star }
}

#[test]
fn preset_positions_round_trip() {
    for (i, p) in all_presets().iter().enumerate() {
        assert_eq!(p.index() as usize, i);
        assert_eq!(GoalPreset::from_u8(i as u8), Some(*p));
    }
    assert_eq!(GoalPreset::from_u8(10), None);
    assert_eq!(GoalPreset::from_u8(255), None);
}

#[test]
fn item_and_pool_positions() {
    assert_eq!(ItemType::from_u8(0), Some(ItemType::FiveChar));
    assert_eq!(ItemType::from_u8(3), Some(ItemType::FourWeapon));
    assert_eq!(ItemType::from_u8(4), None);
    assert_eq!(ItemType::FourChar.index(), 2);
    assert_eq!(ItemType::FiveWeapon.name(), "FiveWeapon");
    assert_eq!(Pool::from_u8(0), Some(Pool::FivestarFocus));
    assert_eq!(Pool::from_u8(4), Some(Pool::Threestar));
    assert_eq!(Pool::from_u8(5), None);
}

#[test]
fn preset_labels() {
    assert_eq!(GoalPreset::AnyFive.label(), "Any 5* Focus Item (Includes Weapon or Character)");
    assert_eq!(GoalPreset::FourWeaponFocus.label(), "Specific 4* Focus Weapon");
    assert_eq!(GoalPreset::AnyFourChar.label(), "Any 4* Focus Character");
}

#[test]
fn single_target_presets() {
    let singles: Vec<GoalPreset> = all_presets().iter().copied().filter(|p| p.is_single_target()).collect();
    assert_eq!(
        singles,
        vec![
            GoalPreset::FiveCharFocus,
            GoalPreset::FiveWeaponFocus,
            GoalPreset::FourCharFocus,
            GoalPreset::FourWeaponFocus
        ]
    );
}

#[test]
fn no_preset_available_without_focus_items() {
    let b = Banner { focus_sizes: [0, 0, 0, 0], ..Banner::default() };
    for p in all_presets() {
        assert!(!p.is_available(&b));
        assert!(!Goal::Preset(p, 1).is_available(&b));
    }
}

#[test]
fn preset_availability_on_default_banner() {
    let b = Banner::default();
    assert!(GoalPreset::AnyFive.is_available(&b));
    assert!(GoalPreset::FiveCharFocus.is_available(&b));
    assert!(!GoalPreset::AnyFiveWeapon.is_available(&b));
    assert!(GoalPreset::AnyFour.is_available(&b));
    assert!(!GoalPreset::FourWeaponFocus.is_available(&b));
}

#[test]
fn custom_goal_available_only_when_every_category_is_featured() {
    let b = Banner::default();
    let both = Goal::Custom(CustomGoal {
        kind: GoalKind::Any,
        goals: vec![part(ItemType::FiveChar, 1, false), part(ItemType::FiveWeapon, 1, false)],
    });
    assert!(!both.is_available(&b));
    let chars = Goal::Custom(CustomGoal {
        kind: GoalKind::All,
        goals: vec![part(ItemType::FiveChar, 2, false), part(ItemType::FourChar, 1, false)],
    });
    assert!(chars.is_available(&b));
    let empty = Goal::Custom(CustomGoal { kind: GoalKind::All, goals: vec![] });
    assert!(empty.is_available(&b));
}

#[test]
fn any_five_expands_to_one_part_per_top_focus_item() {
    let b = Banner { focus_sizes: [2, 1, 3, 0], ..Banner::default() };
    let c = Goal::Preset(GoalPreset::AnyFive, 7).as_custom(&b);
    assert_eq!(c.kind, GoalKind::Any);
    assert_eq!(
        c.goals,
        vec![
            part(ItemType::FiveChar, 7, false),
            part(ItemType::FiveChar, 7, false),
            part(ItemType::FiveWeapon, 7, false)
        ]
    );
    let c = Goal::Preset(GoalPreset::AnyFiveChar, 0).as_custom(&b);
    assert_eq!(c.goals, vec![part(ItemType::FiveChar, 1, false); 2]);
}

#[test]
fn any_four_expands_to_mid_tier_parts() {
    let b = Banner { focus_sizes: [1, 0, 2, 1], ..Banner::default() };
    let c = Goal::Preset(GoalPreset::AnyFour, 3).as_custom(&b);
    assert_eq!(
        c.goals,
        vec![
            part(ItemType::FourChar, 3, true),
            part(ItemType::FourChar, 3, true),
            part(ItemType::FourWeapon, 3, true)
        ]
    );
    let c = Goal::Preset(GoalPreset::AnyFourWeapon, 3).as_custom(&b);
    assert_eq!(c.goals, vec![part(ItemType::FourWeapon, 3, true)]);
}

#[test]
fn specific_preset_keeps_its_count() {
    let b = Banner::default();
    let c = Goal::Preset(GoalPreset::FiveCharFocus, 7).as_custom(&b);
    assert_eq!(c.goals, vec![part(ItemType::FiveChar, 7, false)]);
    let c = Goal::Preset(GoalPreset::FourCharFocus, 0).as_custom(&b);
    assert_eq!(c.goals, vec![part(ItemType::FourChar, 1, true)]);
}

#[test]
fn expanding_a_custom_goal_returns_it_unchanged() {
    let custom = CustomGoal {
        kind: GoalKind::All,
        goals: vec![part(ItemType::FiveWeapon, 3, false), part(ItemType::FourChar, 2, true)],
    };
    let g = Goal::Custom(custom.clone());
    assert_eq!(g.as_custom(&Banner::default()), custom);
    let other = Banner { focus_sizes: [0, 0, 0, 0], ..Banner::default() };
    assert_eq!(g.as_custom(&other), custom);
}

#[test]
fn expanding_a_preset_twice_gives_the_same_goal() {
    let b = Banner::default();
    let g = Goal::Preset(GoalPreset::AnyFour, 1);
    let first = g.as_custom(&b);
    let second = g.as_custom(&b);
    assert_eq!(first, second);
    assert_eq!(Goal::Custom(first.clone()).as_custom(&b), first);
}

#[test]
fn default_goal_is_any_top_focus_item() {
    assert_eq!(Goal::default(), Goal::Preset(GoalPreset::AnyFive, 1));
}

#[test]
fn editing_a_custom_goal() {
    let mut c = Goal::Preset(GoalPreset::AnyFour, 1).to_editable(&Banner::default());
    assert_eq!(c.goals, vec![part(ItemType::FourChar, 1, false); 3]);
    c.set_item_type(1, ItemType::FiveChar);
    c.set_quantity(2, 4);
    c.add_part(ItemType::FourWeapon, 2);
    c.set_kind(GoalKind::All);
    assert_eq!(c.kind, GoalKind::All);
    assert_eq!(
        c.goals,
        vec![
            part(ItemType::FourChar, 1, false),
            part(ItemType::FiveChar, 1, false),
            part(ItemType::FourChar, 4, false),
            part(ItemType::FourWeapon, 2, false)
        ]
    );
    c.set_quantity(0, 0);
    assert_eq!(c.goals.len(), 3);
    assert_eq!(c.goals[0], part(ItemType::FiveChar, 1, false));
}

#[test]
fn selecting_presets() {
    let b = Banner::default();
    let mut g = Goal::Preset(GoalPreset::AnyFive, 4);
    assert!(g.select_preset(GoalPreset::FiveCharFocus, &b));
    assert_eq!(g, Goal::Preset(GoalPreset::FiveCharFocus, 4));
    assert!(!g.select_preset(GoalPreset::AnyFiveWeapon, &b));
    assert_eq!(g, Goal::Preset(GoalPreset::FiveCharFocus, 4));
    assert!(g.set_preset_count(2));
    assert_eq!(g, Goal::Preset(GoalPreset::FiveCharFocus, 2));
    let mut c = Goal::Custom(CustomGoal { kind: GoalKind::All, goals: vec![] });
    assert!(!c.set_preset_count(5));
    assert_eq!(c, Goal::Custom(CustomGoal { kind: GoalKind::All, goals: vec![] }));
    assert!(c.select_preset(GoalPreset::AnyFour, &b));
    assert_eq!(c, Goal::Preset(GoalPreset::AnyFour, 1));
}
