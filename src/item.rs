use vstd::prelude::*;

verus! {

/// The four categories of focus items that a banner can feature.
#[derive(Copy, Clone, PartialEq, Eq, Debug, Structural)]
pub enum ItemType {
    FiveChar,
    FiveWeapon,
    FourChar,
    FourWeapon,
}

impl ItemType {
    /// Position of the category in the fixed order used by banners and goals.
    pub open spec fn index_of(self) -> nat {
        match self {
            ItemType::FiveChar => 0,
            ItemType::FiveWeapon => 1,
            ItemType::FourChar => 2,
            ItemType::FourWeapon => 3,
        }
    }

    /// The category at position `i`, if there is one.
    pub open spec fn at_index(i: int) -> Option<ItemType> {
        if i == 0 {
            Some(ItemType::FiveChar)
        } else if i == 1 {
            Some(ItemType::FiveWeapon)
        } else if i == 2 {
            Some(ItemType::FourChar)
        } else if i == 3 {
            Some(ItemType::FourWeapon)
        } else {
            None
        }
    }

    pub fn index(self) -> (r: usize)
        ensures
            r == self.index_of(),
            r < 4,
    {
        match self {
            ItemType::FiveChar => 0,
            ItemType::FiveWeapon => 1,
            ItemType::FourChar => 2,
            ItemType::FourWeapon => 3,
        }
    }

    /// Reads a category from its position; positions past the last one are refused.
    pub fn from_u8(value: u8) -> (r: Option<ItemType>)
        ensures
            r == ItemType::at_index(value as int),
    {
        match value {
            0 => Some(ItemType::FiveChar),
            1 => Some(ItemType::FiveWeapon),
            2 => Some(ItemType::FourChar),
            3 => Some(ItemType::FourWeapon),
            _ => None,
        }
    }

    /// Whether the category belongs to the top tier.
    pub open spec fn is_top_tier(self) -> bool {
        self.index_of() < 2
    }

    /// The variant's name.
    pub fn name(self) -> (r: &'static str)
        ensures
            r@ == item_name(self),
    {
        match self {
            ItemType::FiveChar => "FiveChar",
            ItemType::FiveWeapon => "FiveWeapon",
            ItemType::FourChar => "FourChar",
            ItemType::FourWeapon => "FourWeapon",
        }
    }
}

pub open spec fn item_name(t: ItemType) -> Seq<char> {
    match t {
        ItemType::FiveChar => "FiveChar"@,
        ItemType::FiveWeapon => "FiveWeapon"@,
        ItemType::FourChar => "FourChar"@,
        ItemType::FourWeapon => "FourWeapon"@,
    }
}

pub proof fn lemma_index_round_trip(t: ItemType)
    ensures
        ItemType::at_index(t.index_of() as int) == Some(t),
{
}

/// The outcome of one draw: which tier it landed in, and whether it was a
/// focus item of that tier.
#[derive(Copy, Clone, PartialEq, Eq, Debug, Structural)]
pub enum Pool {
    FivestarFocus,
    Fivestar,
    FourstarFocus,
    Fourstar,
    Threestar,
}

impl Pool {
    pub open spec fn at_index(i: int) -> Option<Pool> {
        if i == 0 {
            Some(Pool::FivestarFocus)
        } else if i == 1 {
            Some(Pool::Fivestar)
        } else if i == 2 {
            Some(Pool::FourstarFocus)
        } else if i == 3 {
            Some(Pool::Fourstar)
        } else if i == 4 {
            Some(Pool::Threestar)
        } else {
            None
        }
    }

    /// Reads an outcome from its position in the order
    /// top-focus, top, mid-focus, mid, filler.
    pub fn from_u8(value: u8) -> (r: Option<Pool>)
        ensures
            r == Pool::at_index(value as int),
    {
        match value {
            0 => Some(Pool::FivestarFocus),
            1 => Some(Pool::Fivestar),
            2 => Some(Pool::FourstarFocus),
            3 => Some(Pool::Fourstar),
            4 => Some(Pool::Threestar),
            _ => None,
        }
    }

    pub open spec fn is_top(self) -> bool {
        self is FivestarFocus || self is Fivestar
    }

    pub open spec fn is_mid(self) -> bool {
        self is FourstarFocus || self is Fourstar
    }
}

} // verus!
