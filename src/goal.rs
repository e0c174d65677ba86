//! Goals: what a run of draws must collect, as a preset or as a list of parts.
use vstd::prelude::*;
use crate::banner::Banner;
use crate::item::ItemType;

verus! {

/// Pre-set options for common goals.
#[derive(Copy, Clone, PartialEq, Eq, Debug, Structural)]
pub enum GoalPreset {
    AnyFive,
    AnyFiveChar,
    FiveCharFocus,
    AnyFiveWeapon,
    FiveWeaponFocus,
    AnyFour,
    AnyFourChar,
    FourCharFocus,
    AnyFourWeapon,
    FourWeaponFocus,
}

/// Whether the given goal is to achieve all of the goal parts or just a single one.
#[derive(Copy, Clone, PartialEq, Eq, Debug, Structural)]
pub enum GoalKind {
    Any,
    All,
}

/// A single unit that the goal is trying to obtain.
#[derive(Copy, Clone, PartialEq, Eq, Debug, Structural)]
pub struct GoalPart {
    pub item_type: ItemType,
    pub num_copies: u8,
    pub four_star: bool,
}

/// The flexible representation of a goal.
#[derive(PartialEq, Eq, Debug)]
pub struct CustomGoal {
    pub kind: GoalKind,
    pub goals: Vec<GoalPart>,
}

/// The goal of a summoning session.
#[derive(PartialEq, Eq, Debug)]
pub enum Goal {
    Custom(CustomGoal),
    Preset(GoalPreset, u8),
}

/// What a custom goal holds.
pub struct CustomGoalView {
    pub kind: GoalKind,
    pub parts: Seq<GoalPart>,
}

/// What a goal holds.
pub enum GoalView {
    Custom(CustomGoalView),
    Preset(GoalPreset, u8),
}

impl View for CustomGoal {
    type V = CustomGoalView;

    open spec fn view(&self) -> CustomGoalView {
        CustomGoalView { kind: self.kind, parts: self.goals@ }
    }
}

impl View for Goal {
    type V = GoalView;

    open spec fn view(&self) -> GoalView {
        match self {
            Goal::Custom(c) => GoalView::Custom(c@),
            Goal::Preset(p, n) => GoalView::Preset(*p, *n),
        }
    }
}

impl Clone for CustomGoal {
    fn clone(&self) -> (r: Self)
        ensures
            r@ == self@,
    {
        let mut goals: Vec<GoalPart> = Vec::new();
        let mut i: usize = 0;
        while i < self.goals.len()
            invariant
                i <= self.goals@.len(),
                goals@ == self.goals@.subrange(0, i as int),
            decreases self.goals@.len() - i,
        {
            goals.push(self.goals[i]);
            i += 1;
            assert(goals@ =~= self.goals@.subrange(0, i as int));
        }
        assert(goals@ =~= self.goals@);
        CustomGoal { kind: self.kind, goals }
    }
}

impl Clone for Goal {
    fn clone(&self) -> (r: Self)
        ensures
            r@ == self@,
    {
        match self {
            Goal::Custom(c) => Goal::Custom(c.clone()),
            Goal::Preset(p, n) => Goal::Preset(*p, *n),
        }
    }
}

impl GoalPreset {
    pub open spec fn at_index(i: int) -> Option<GoalPreset> {
        if i == 0 {
            Some(GoalPreset::AnyFive)
        } else if i == 1 {
            Some(GoalPreset::AnyFiveChar)
        } else if i == 2 {
            Some(GoalPreset::FiveCharFocus)
        } else if i == 3 {
            Some(GoalPreset::AnyFiveWeapon)
        } else if i == 4 {
            Some(GoalPreset::FiveWeaponFocus)
        } else if i == 5 {
            Some(GoalPreset::AnyFour)
        } else if i == 6 {
            Some(GoalPreset::AnyFourChar)
        } else if i == 7 {
            Some(GoalPreset::FourCharFocus)
        } else if i == 8 {
            Some(GoalPreset::AnyFourWeapon)
        } else if i == 9 {
            Some(GoalPreset::FourWeaponFocus)
        } else {
            None
        }
    }

    pub open spec fn index_of(self) -> nat {
        match self {
            GoalPreset::AnyFive => 0,
            GoalPreset::AnyFiveChar => 1,
            GoalPreset::FiveCharFocus => 2,
            GoalPreset::AnyFiveWeapon => 3,
            GoalPreset::FiveWeaponFocus => 4,
            GoalPreset::AnyFour => 5,
            GoalPreset::AnyFourChar => 6,
            GoalPreset::FourCharFocus => 7,
            GoalPreset::AnyFourWeapon => 8,
            GoalPreset::FourWeaponFocus => 9,
        }
    }

    pub fn index(self) -> (r: u8)
        ensures
            r == self.index_of(),
    {
        match self {
            GoalPreset::AnyFive => 0,
            GoalPreset::AnyFiveChar => 1,
            GoalPreset::FiveCharFocus => 2,
            GoalPreset::AnyFiveWeapon => 3,
            GoalPreset::FiveWeaponFocus => 4,
            GoalPreset::AnyFour => 5,
            GoalPreset::AnyFourChar => 6,
            GoalPreset::FourCharFocus => 7,
            GoalPreset::AnyFourWeapon => 8,
            GoalPreset::FourWeaponFocus => 9,
        }
    }

    /// Reads a preset from its position in declaration order.
    pub fn from_u8(value: u8) -> (r: Option<GoalPreset>)
        ensures
            r == GoalPreset::at_index(value as int),
    {
        match value {
            0 => Some(GoalPreset::AnyFive),
            1 => Some(GoalPreset::AnyFiveChar),
            2 => Some(GoalPreset::FiveCharFocus),
            3 => Some(GoalPreset::AnyFiveWeapon),
            4 => Some(GoalPreset::FiveWeaponFocus),
            5 => Some(GoalPreset::AnyFour),
            6 => Some(GoalPreset::AnyFourChar),
            7 => Some(GoalPreset::FourCharFocus),
            8 => Some(GoalPreset::AnyFourWeapon),
            9 => Some(GoalPreset::FourWeaponFocus),
            _ => None,
        }
    }

    /// Human-readable description of the preset.
    pub fn label(self) -> (r: &'static str)
        ensures
            r@ == preset_label(self),
    {
        match self {
            GoalPreset::AnyFive => "Any 5* Focus Item (Includes Weapon or Character)",
            GoalPreset::AnyFiveChar => "Any 5* Focus Character",
            GoalPreset::FiveCharFocus => "Specific 5* Focus Character",
            GoalPreset::AnyFiveWeapon => "Any 5* Focus Weapon",
            GoalPreset::FiveWeaponFocus => "Specific 5* Focus Weapon",
            GoalPreset::AnyFour => "Any 4* Focus Item (Includes Weapon or Character)",
            GoalPreset::AnyFourChar => "Any 4* Focus Character",
            GoalPreset::FourCharFocus => "Specific 4* Focus Character",
            GoalPreset::AnyFourWeapon => "Any 4* Focus Weapon",
            GoalPreset::FourWeaponFocus => "Specific 4* Focus Weapon",
        }
    }

    /// Whether the preset can be met on the banner: some focus item of a
    /// category that it counts is featured.
    pub open spec fn available_on(self, banner: Banner) -> bool {
        match self {
            GoalPreset::AnyFive => banner.focus(0) > 0 || banner.focus(1) > 0,
            GoalPreset::AnyFiveChar | GoalPreset::FiveCharFocus => banner.focus(0) > 0,
            GoalPreset::AnyFiveWeapon | GoalPreset::FiveWeaponFocus => banner.focus(1) > 0,
            GoalPreset::AnyFour => banner.focus(2) > 0 || banner.focus(3) > 0,
            GoalPreset::AnyFourChar | GoalPreset::FourCharFocus => banner.focus(2) > 0,
            GoalPreset::AnyFourWeapon | GoalPreset::FourWeaponFocus => banner.focus(3) > 0,
        }
    }

    /// Determines whether or not the selected preset is a goal that it is
    /// possible to achieve on the banner.
    pub fn is_available(self, banner: &Banner) -> (r: bool)
        ensures
            r == self.available_on(*banner),
    {
        match self {
            GoalPreset::AnyFive => banner.focus_sizes[0] > 0 || banner.focus_sizes[1] > 0,
            GoalPreset::AnyFiveChar | GoalPreset::FiveCharFocus => banner.focus_sizes[0] > 0,
            GoalPreset::AnyFiveWeapon | GoalPreset::FiveWeaponFocus => banner.focus_sizes[1] > 0,
            GoalPreset::AnyFour => banner.focus_sizes[2] > 0 || banner.focus_sizes[3] > 0,
            GoalPreset::AnyFourChar | GoalPreset::FourCharFocus => banner.focus_sizes[2] > 0,
            GoalPreset::AnyFourWeapon | GoalPreset::FourWeaponFocus => banner.focus_sizes[3] > 0,
        }
    }

    pub open spec fn single_target(self) -> bool {
        match self {
            GoalPreset::FiveCharFocus
            | GoalPreset::FiveWeaponFocus
            | GoalPreset::FourCharFocus
            | GoalPreset::FourWeaponFocus => true,
            _ => false,
        }
    }

    /// Says whether or not the preset has only a single unit that counts for
    /// completing the goal.
    pub fn is_single_target(&self) -> (r: bool)
        ensures
            r == self.single_target(),
    {
        match self {
            GoalPreset::FiveCharFocus
            | GoalPreset::FiveWeaponFocus
            | GoalPreset::FourCharFocus
            | GoalPreset::FourWeaponFocus => true,
            _ => false,
        }
    }
}

pub open spec fn preset_label(p: GoalPreset) -> Seq<char> {
    match p {
        GoalPreset::AnyFive => "Any 5* Focus Item (Includes Weapon or Character)"@,
        GoalPreset::AnyFiveChar => "Any 5* Focus Character"@,
        GoalPreset::FiveCharFocus => "Specific 5* Focus Character"@,
        GoalPreset::AnyFiveWeapon => "Any 5* Focus Weapon"@,
        GoalPreset::FiveWeaponFocus => "Specific 5* Focus Weapon"@,
        GoalPreset::AnyFour => "Any 4* Focus Item (Includes Weapon or Character)"@,
        GoalPreset::AnyFourChar => "Any 4* Focus Character"@,
        GoalPreset::FourCharFocus => "Specific 4* Focus Character"@,
        GoalPreset::AnyFourWeapon => "Any 4* Focus Weapon"@,
        GoalPreset::FourWeaponFocus => "Specific 4* Focus Weapon"@,
    }
}

/// `n` copies of `part` (none when `n` is not positive).
pub open spec fn repeat_part(part: GoalPart, n: int) -> Seq<GoalPart> {
    Seq::new(if n > 0 { n as nat } else { 0 }, |_i: int| part)
}

/// The part that stands for one focus item of category `t`.
pub open spec fn focus_part(t: ItemType, copies: u8) -> GoalPart {
    GoalPart { item_type: t, num_copies: copies, four_star: !t.is_top_tier() }
}

/// The parts that a preset expands to on a banner: one per focus item that it
/// counts, each needing the preset's copy count (at least one copy).
pub open spec fn preset_parts(p: GoalPreset, count: u8, banner: Banner) -> Seq<GoalPart> {
    let target = if count > 0 { count } else { 1u8 };
    let one = |t: ItemType| repeat_part(focus_part(t, target), banner.focus(t.index_of() as int));
    match p {
        GoalPreset::AnyFive => one(ItemType::FiveChar) + one(ItemType::FiveWeapon),
        GoalPreset::AnyFiveChar => one(ItemType::FiveChar),
        GoalPreset::FiveCharFocus => seq![focus_part(ItemType::FiveChar, target)],
        GoalPreset::AnyFiveWeapon => one(ItemType::FiveWeapon),
        GoalPreset::FiveWeaponFocus => seq![focus_part(ItemType::FiveWeapon, target)],
        GoalPreset::AnyFour => one(ItemType::FourChar) + one(ItemType::FourWeapon),
        GoalPreset::AnyFourChar => one(ItemType::FourChar),
        GoalPreset::FourCharFocus => seq![focus_part(ItemType::FourChar, target)],
        GoalPreset::AnyFourWeapon => one(ItemType::FourWeapon),
        GoalPreset::FourWeaponFocus => seq![focus_part(ItemType::FourWeapon, target)],
    }
}

impl GoalView {
    /// The custom goal equivalent to this goal on `banner`: a custom goal is
    /// its own expansion, and a preset becomes an `Any` goal over its parts.
    pub open spec fn expand(self, banner: Banner) -> CustomGoalView {
        match self {
            GoalView::Custom(c) => c,
            GoalView::Preset(p, n) => CustomGoalView {
                kind: GoalKind::Any,
                parts: preset_parts(p, n, banner),
            },
        }
    }

    /// Every category that the goal names has a focus item on the banner.
    pub open spec fn available_on(self, banner: Banner) -> bool {
        match self {
            GoalView::Custom(c) => forall|i: int|
                0 <= i < c.parts.len() ==> banner.focus(
                    #[trigger] c.parts[i].item_type.index_of() as int,
                ) > 0,
            GoalView::Preset(p, _) => p.available_on(banner),
        }
    }
}

/// Appends `n` copies of `part` (none when `n` is not positive).
fn push_copies(parts: &mut Vec<GoalPart>, part: GoalPart, n: i8)
    ensures
        final(parts)@ == old(parts)@ + repeat_part(part, n as int),
{
    let mut k: i8 = 0;
    while k < n
        invariant
            0 <= k,
            k <= n || n <= 0,
            n <= 0 ==> k == 0,
            parts@ == old(parts)@ + repeat_part(part, k as int),
        decreases n - k,
    {
        parts.push(part);
        k += 1;
        assert(parts@ =~= old(parts)@ + repeat_part(part, k as int));
    }
    assert(parts@ =~= old(parts)@ + repeat_part(part, n as int));
}

impl Goal {
    /// Convert the current preset into a custom goal or retrieve the current
    /// custom goal.
    pub fn as_custom(&self, banner: &Banner) -> (r: CustomGoal)
        ensures
            r@ == self@.expand(*banner),
    {
        let (preset, count) = match self {
            Goal::Preset(preset, count) => (*preset, *count),
            Goal::Custom(custom) => return custom.clone(),
        };
        let count = if count > 1 {
            count
        } else {
            1
        };
        let mut goals: Vec<GoalPart> = Vec::new();
        let five_char = GoalPart { item_type: ItemType::FiveChar, num_copies: count, four_star: false };
        let five_weapon = GoalPart {
            item_type: ItemType::FiveWeapon,
            num_copies: count,
            four_star: false,
        };
        let four_char = GoalPart { item_type: ItemType::FourChar, num_copies: count, four_star: true };
        let four_weapon = GoalPart {
            item_type: ItemType::FourWeapon,
            num_copies: count,
            four_star: true,
        };
        // One part for each focus unit that matches the conditions of the
        // overall goal.
        match preset {
            GoalPreset::AnyFive => {
                push_copies(&mut goals, five_char, banner.focus_sizes[0]);
                push_copies(&mut goals, five_weapon, banner.focus_sizes[1]);
            },
            GoalPreset::AnyFiveChar => push_copies(&mut goals, five_char, banner.focus_sizes[0]),
            GoalPreset::FiveCharFocus => goals.push(
                GoalPart { item_type: ItemType::FiveChar, num_copies: count, four_star: false },
            ),
            GoalPreset::AnyFiveWeapon => push_copies(
                &mut goals,
                five_weapon,
                banner.focus_sizes[1],
            ),
            GoalPreset::FiveWeaponFocus => goals.push(
                GoalPart { item_type: ItemType::FiveWeapon, num_copies: count, four_star: false },
            ),
            GoalPreset::AnyFour => {
                push_copies(&mut goals, four_char, banner.focus_sizes[2]);
                push_copies(&mut goals, four_weapon, banner.focus_sizes[3]);
            },
            GoalPreset::AnyFourChar => push_copies(&mut goals, four_char, banner.focus_sizes[2]),
            GoalPreset::FourCharFocus => goals.push(
                GoalPart { item_type: ItemType::FourChar, num_copies: count, four_star: true },
            ),
            GoalPreset::AnyFourWeapon => push_copies(
                &mut goals,
                four_weapon,
                banner.focus_sizes[3],
            ),
            GoalPreset::FourWeaponFocus => goals.push(
                GoalPart { item_type: ItemType::FourWeapon, num_copies: count, four_star: true },
            ),
        }
        assert(goals@ =~= preset_parts(preset, count, *banner));
        CustomGoal { kind: GoalKind::Any, goals }
    }

    /// Checks whether or not the goal is possible on the given banner.
    pub fn is_available(&self, banner: &Banner) -> (r: bool)
        ensures
            r == self@.available_on(*banner),
    {
        match self {
            Goal::Custom(custom_goal) => {
                let mut i: usize = 0;
                while i < custom_goal.goals.len()
                    invariant
                        self@ == GoalView::Custom(custom_goal@),
                        i <= custom_goal.goals@.len(),
                        forall|j: int|
                            0 <= j < i ==> banner.focus(
                                #[trigger] custom_goal.goals@[j].item_type.index_of() as int,
                            ) > 0,
                    decreases custom_goal.goals@.len() - i,
                {
                    let t = custom_goal.goals[i].item_type.index();
                    if banner.focus_sizes[t] <= 0 {
                        assert(banner.focus(custom_goal.goals@[i as int].item_type.index_of() as int)
                            <= 0);
                        return false;
                    }
                    i += 1;
                }
                true
            },
            Goal::Preset(preset, _) => preset.is_available(banner),
        }
    }
}

/// The part as an editable custom goal holds it: custom goals track no tier flag.
pub open spec fn untiered(p: GoalPart) -> GoalPart {
    GoalPart { item_type: p.item_type, num_copies: p.num_copies, four_star: false }
}

impl CustomGoal {
    /// Changes the category of part `index`.
    pub fn set_item_type(&mut self, index: usize, item_type: ItemType)
        requires
            index < old(self).goals@.len(),
        ensures
            final(self)@.kind == old(self)@.kind,
            final(self)@.parts == old(self)@.parts.update(
                index as int,
                GoalPart {
                    item_type,
                    num_copies: old(self)@.parts[index as int].num_copies,
                    four_star: old(self)@.parts[index as int].four_star,
                },
            ),
    {
        let part = self.goals[index];
        self.goals.set(
            index,
            GoalPart { item_type, num_copies: part.num_copies, four_star: part.four_star },
        );
    }

    /// Changes the copies that part `index` needs; zero copies removes the part.
    pub fn set_quantity(&mut self, index: usize, quantity: u8)
        requires
            index < old(self).goals@.len(),
        ensures
            final(self)@.kind == old(self)@.kind,
            final(self)@.parts == if quantity == 0 {
                old(self)@.parts.remove(index as int)
            } else {
                old(self)@.parts.update(
                    index as int,
                    GoalPart {
                        item_type: old(self)@.parts[index as int].item_type,
                        num_copies: quantity,
                        four_star: old(self)@.parts[index as int].four_star,
                    },
                )
            },
    {
        if quantity == 0 {
            self.goals.remove(index);
        } else {
            let part = self.goals[index];
            self.goals.set(
                index,
                GoalPart { item_type: part.item_type, num_copies: quantity, four_star: part.four_star },
            );
        }
    }

    /// Appends a part needing `quantity` copies of an item of `item_type`.
    pub fn add_part(&mut self, item_type: ItemType, quantity: u8)
        ensures
            final(self)@.kind == old(self)@.kind,
            final(self)@.parts == old(self)@.parts.push(
                GoalPart { item_type, num_copies: quantity, four_star: false },
            ),
    {
        self.goals.push(GoalPart { item_type, num_copies: quantity, four_star: false });
    }

    /// Changes whether all parts or any one of them must be met.
    pub fn set_kind(&mut self, kind: GoalKind)
        ensures
            final(self)@.kind == kind,
            final(self)@.parts == old(self)@.parts,
    {
        self.kind = kind;
    }
}

impl Goal {
    /// The goal as a custom goal to edit further: its expansion on the banner,
    /// with the tier flag of every part cleared.
    pub fn to_editable(&self, banner: &Banner) -> (r: CustomGoal)
        ensures
            r@.kind == self@.expand(*banner).kind,
            r@.parts == self@.expand(*banner).parts.map_values(|p: GoalPart| untiered(p)),
    {
        let mut custom = self.as_custom(banner);
        let ghost parts = custom.goals@;
        let mut i: usize = 0;
        while i < custom.goals.len()
            invariant
                i <= custom.goals@.len(),
                custom.kind == self@.expand(*banner).kind,
                custom.goals@.len() == parts.len(),
                forall|j: int| 0 <= j < i ==> #[trigger] custom.goals@[j] == untiered(parts[j]),
                forall|j: int| i <= j < parts.len() ==> #[trigger] custom.goals@[j] == parts[j],
            decreases custom.goals@.len() - i,
        {
            let part = custom.goals[i];
            custom.goals.set(
                i,
                GoalPart { item_type: part.item_type, num_copies: part.num_copies, four_star: false },
            );
            i += 1;
        }
        assert(custom.goals@ =~= parts.map_values(|p: GoalPart| untiered(p)));
        custom
    }
}

impl Goal {
    /// Switches to `preset` when it is available on the banner, keeping the
    /// copy count of a current preset (a custom goal gives way to a count of
    /// one); an unavailable preset leaves the goal as it is. Returns whether
    /// the goal changed.
    pub fn select_preset(&mut self, preset: GoalPreset, banner: &Banner) -> (r: bool)
        ensures
            r == preset.available_on(*banner),
            r ==> final(self)@ == GoalView::Preset(
                preset,
                match old(self)@ {
                    GoalView::Preset(_, n) => n,
                    GoalView::Custom(_) => 1,
                },
            ),
            !r ==> final(self)@ == old(self)@,
    {
        if !preset.is_available(banner) {
            return false;
        }
        let count = match self {
            Goal::Preset(_, count) => *count,
            Goal::Custom(_) => 1,
        };
        *self = Goal::Preset(preset, count);
        true
    }

    /// Sets the copy count of a preset goal; a custom goal is left as it is.
    /// Returns whether the goal changed.
    pub fn set_preset_count(&mut self, quantity: u8) -> (r: bool)
        ensures
            r == old(self)@ is Preset,
            final(self)@ == match old(self)@ {
                GoalView::Preset(p, _) => GoalView::Preset(p, quantity),
                GoalView::Custom(c) => GoalView::Custom(c),
            },
    {
        match self {
            Goal::Preset(_, count) => {
                *count = quantity;
                true
            },
            Goal::Custom(_) => false,
        }
    }
}

impl Default for Goal {
    fn default() -> (r: Self)
        ensures
            r@ == GoalView::Preset(GoalPreset::AnyFive, 1),
    {
        Goal::Preset(GoalPreset::AnyFive, 1)
    }
}

} // verus!
