//! Banner configuration: draw rates, pity thresholds, focus pool sizes and
//! optional mechanics.
//!
//! Rates are fixed-point, in parts per thousand of a draw: a `five_rate` of 6
//! is a 0.6% chance. `RATE_SCALE` is the value of certainty.
use vstd::prelude::*;

verus! {

/// The value of a rate that makes a draw certain.
pub const RATE_SCALE: u32 = 1000;

/// Under the escalating model, each draw past the threshold adds this many
/// times the base rate.
pub const ESCALATION_FACTOR: u32 = 10;

/// How the top-tier rate grows after a run of draws without a top-tier hit.
#[derive(Copy, Clone, PartialEq, Eq, Debug, Structural)]
pub enum PityModel {
    /// Past `Banner::five_pity` draws, the rate grows linearly with each draw.
    Escalating,
    /// From draw `soft_pity` on, the top-tier rate is `soft_rate`; from draw
    /// `hard_pity` on, a top-tier hit is certain. The mid tier escalates past
    /// `Banner::four_pity` as under `Escalating`.
    SoftHard { soft_pity: u16, hard_pity: u16, soft_rate: u16 },
}

/// Representation of a summoning focus.
///
/// `focus_sizes` counts the focus items of each category, in the order of
/// `ItemType`; a negative count marks a value that is not set.
#[derive(Copy, Clone, PartialEq, Eq, Debug)]
pub struct Banner {
    pub focus_sizes: [i8; 4],
    pub five_rate: u16,
    pub four_rate: u16,
    pub split_rates: (u8, u8),
    pub five_pity: u16,
    pub four_pity: u16,
    pub epitomized_path: bool,
    pub capturing_radiance: bool,
    pub pity_model: PityModel,
}

/// Why a banner cannot be simulated.
#[derive(Copy, Clone, PartialEq, Eq, Debug, Structural)]
pub enum ConfigError {
    /// The focus and non-focus percentages do not add up to 100.
    SplitNotHundred,
    /// A focus count is negative (not set).
    NegativeFocusSize,
    /// The top and mid rates together exceed certainty, at the base rates or
    /// at the soft-pity rate.
    RatesTooHigh,
    /// The soft pity index comes after the hard pity index.
    PityOutOfOrder,
}

/// The rate of a tier after `count` draws since its last hit, when every draw
/// past `threshold` adds `ESCALATION_FACTOR` times the base rate.
pub open spec fn escalated_rate(rate: int, threshold: int, count: int) -> int {
    if count > threshold {
        rate + (count - threshold) * ESCALATION_FACTOR * rate
    } else {
        rate
    }
}

/// An escalated rate stays far below `u64::MAX` for any counter that fits in `u32`.
pub proof fn lemma_escalated_bound(rate: int, threshold: int, count: int)
    requires
        0 <= rate <= 0xffff,
        0 <= threshold,
        0 <= count <= 0xffff_ffff,
    ensures
        0 <= escalated_rate(rate, threshold, count) < 0x4000_0000_0000_0000,
{
    if count > threshold {
        assert(0 <= (count - threshold) * 10 * rate <= 0xffff_ffff * 10 * 0xffff) by (nonlinear_arith)
            requires
                0 <= count - threshold <= 0xffff_ffff,
                0 <= rate <= 0xffff,
        ;
    }
}

fn escalate(rate: u16, threshold: u16, count: u32) -> (r: u64)
    ensures
        r == escalated_rate(rate as int, threshold as int, count as int),
        r < 0x4000_0000_0000_0000,
{
    proof {
        lemma_escalated_bound(rate as int, threshold as int, count as int);
    }
    if count > threshold as u32 {
        let over = (count - threshold as u32) as u64;
        assert(over * 10 * (rate as u64) <= 0xffff_ffffu64 * 10 * 0xffff) by (nonlinear_arith)
            requires
                over <= 0xffff_ffff,
                rate <= 0xffff,
        ;
        rate as u64 + over * 10 * (rate as u64)
    } else {
        rate as u64
    }
}

impl Banner {
    /// Number of focus items of category `i`.
    pub open spec fn focus(self, i: int) -> int {
        self.focus_sizes[i] as int
    }

    pub open spec fn split_ok(self) -> bool {
        self.split_rates.0 + self.split_rates.1 == 100
    }

    pub open spec fn focus_ok(self) -> bool {
        forall|i: int| 0 <= i < 4 ==> self.focus(i) >= 0
    }

    /// Neither the base rates nor the soft-pity rates leave a negative filler
    /// share.
    pub open spec fn rates_ok(self) -> bool {
        &&& self.five_rate + self.four_rate <= RATE_SCALE
        &&& match self.pity_model {
            PityModel::SoftHard { soft_rate, .. } => soft_rate + self.four_rate <= RATE_SCALE,
            PityModel::Escalating => true,
        }
    }

    pub open spec fn pity_ok(self) -> bool {
        match self.pity_model {
            PityModel::SoftHard { soft_pity, hard_pity, .. } => soft_pity <= hard_pity,
            PityModel::Escalating => true,
        }
    }

    /// The first rule that the banner breaks, checked in the order above.
    pub open spec fn config_error(self) -> Option<ConfigError> {
        if !self.split_ok() {
            Some(ConfigError::SplitNotHundred)
        } else if !self.focus_ok() {
            Some(ConfigError::NegativeFocusSize)
        } else if !self.rates_ok() {
            Some(ConfigError::RatesTooHigh)
        } else if !self.pity_ok() {
            Some(ConfigError::PityOutOfOrder)
        } else {
            None
        }
    }

    pub open spec fn is_valid(self) -> bool {
        &&& self.split_ok()
        &&& self.focus_ok()
        &&& self.rates_ok()
        &&& self.pity_ok()
    }

    /// Checks the banner before a simulation is built on it.
    pub fn validate(&self) -> (r: Result<(), ConfigError>)
        ensures
            r is Ok <==> self.is_valid(),
            r matches Err(e) ==> self.config_error() == Some(e),
    {
        if self.split_rates.0 as u16 + self.split_rates.1 as u16 != 100 {
            return Err(ConfigError::SplitNotHundred);
        }
        let mut i: usize = 0;
        while i < 4
            invariant
                i <= 4,
                self.split_ok(),
                forall|j: int| 0 <= j < i ==> self.focus(j) >= 0,
            decreases 4 - i,
        {
            if self.focus_sizes[i] < 0 {
                assert(self.focus(i as int) < 0);
                return Err(ConfigError::NegativeFocusSize);
            }
            i += 1;
        }
        if self.five_rate as u32 + self.four_rate as u32 > RATE_SCALE {
            return Err(ConfigError::RatesTooHigh);
        }
        if let PityModel::SoftHard { soft_rate, .. } = self.pity_model {
            if soft_rate as u32 + self.four_rate as u32 > RATE_SCALE {
                return Err(ConfigError::RatesTooHigh);
            }
        }
        match self.pity_model {
            PityModel::SoftHard { soft_pity, hard_pity, .. } => {
                if soft_pity > hard_pity {
                    return Err(ConfigError::PityOutOfOrder);
                }
            },
            PityModel::Escalating => {},
        }
        Ok(())
    }

    /// Top-tier rate of the next draw, `count` draws after the last top-tier hit
    /// (the draw right after a hit has `count` 1). May exceed `RATE_SCALE`.
    pub open spec fn top_rate(self, count: int) -> int {
        match self.pity_model {
            PityModel::Escalating => escalated_rate(
                self.five_rate as int,
                self.five_pity as int,
                count,
            ),
            PityModel::SoftHard { soft_pity, hard_pity, soft_rate } => {
                if count >= hard_pity {
                    RATE_SCALE as int
                } else if count >= soft_pity {
                    soft_rate as int
                } else {
                    self.five_rate as int
                }
            },
        }
    }

    /// Mid-tier rate of the next draw, `count` draws after the last mid-tier hit.
    pub open spec fn mid_rate(self, count: int) -> int {
        escalated_rate(self.four_rate as int, self.four_pity as int, count)
    }

    pub fn top_rate_at(&self, count: u32) -> (r: u64)
        ensures
            r == self.top_rate(count as int),
            r < 0x4000_0000_0000_0000,
    {
        match self.pity_model {
            PityModel::Escalating => escalate(self.five_rate, self.five_pity, count),
            PityModel::SoftHard { soft_pity, hard_pity, soft_rate } => {
                if count >= hard_pity as u32 {
                    RATE_SCALE as u64
                } else if count >= soft_pity as u32 {
                    soft_rate as u64
                } else {
                    self.five_rate as u64
                }
            },
        }
    }

    pub fn mid_rate_at(&self, count: u32) -> (r: u64)
        ensures
            r == self.mid_rate(count as int),
            r < 0x4000_0000_0000_0000,
    {
        escalate(self.four_rate, self.four_pity, count)
    }

    /// Number of focus slots of the top tier (`top`) or of the mid tier.
    pub open spec fn tier_slots(self, top: bool) -> int {
        if top {
            self.focus(0) + self.focus(1)
        } else {
            self.focus(2) + self.focus(3)
        }
    }

    pub fn focus_slots(&self, top: bool) -> (r: u32)
        requires
            self.focus_ok(),
        ensures
            r == self.tier_slots(top),
    {
        assert(self.focus(0) >= 0 && self.focus(1) >= 0);
        assert(self.focus(2) >= 0 && self.focus(3) >= 0);
        if top {
            self.focus_sizes[0] as u32 + self.focus_sizes[1] as u32
        } else {
            self.focus_sizes[2] as u32 + self.focus_sizes[3] as u32
        }
    }

    /// The focus sizes that a rate change sets for the banner types whose split
    /// identifies them: an even split is a character banner, 75/25 a weapon
    /// banner, and 100/0 the standard banner, simulated with every item in focus.
    pub open spec fn focus_for_split(split_rates: (u8, u8)) -> Option<[i8; 4]> {
        if split_rates == (50u8, 50u8) {
            Some([1, 0, 3, 0])
        } else if split_rates == (75u8, 25u8) {
            Some([0, 2, 0, 5])
        } else if split_rates == (100u8, 0u8) {
            Some([5, 10, 16, 18])
        } else {
            None
        }
    }

    /// Changes the starting rates and pity thresholds; a split that names a
    /// banner type also sets that type's focus sizes.
    pub fn set_rates(
        &mut self,
        five_rate: u16,
        four_rate: u16,
        split_rates: (u8, u8),
        five_pity: u16,
        four_pity: u16,
    )
        ensures
            *final(self) == (Banner {
                five_rate,
                four_rate,
                split_rates,
                five_pity,
                four_pity,
                focus_sizes: match Banner::focus_for_split(split_rates) {
                    Some(sizes) => sizes,
                    None => old(self).focus_sizes,
                },
                ..*old(self)
            }),
    {
        self.five_rate = five_rate;
        self.four_rate = four_rate;
        self.split_rates = split_rates;
        self.five_pity = five_pity;
        self.four_pity = four_pity;
        if split_rates.0 == 50 && split_rates.1 == 50 {
            self.focus_sizes = [1, 0, 3, 0];
        } else if split_rates.0 == 75 && split_rates.1 == 25 {
            self.focus_sizes = [0, 2, 0, 5];
        } else if split_rates.0 == 100 && split_rates.1 == 0 {
            self.focus_sizes = [5, 10, 16, 18];
        }
    }
}

impl Default for Banner {
    /// The character event banner: one top-tier and three mid-tier focus
    /// characters.
    fn default() -> (r: Self)
        ensures
            r == (Banner {
                focus_sizes: [1, 0, 3, 0],
                five_rate: 6,
                four_rate: 51,
                split_rates: (55, 45),
                five_pity: 73,
                four_pity: 8,
                epitomized_path: false,
                capturing_radiance: false,
                pity_model: PityModel::Escalating,
            }),
    {
        Banner {
            focus_sizes: [1, 0, 3, 0],
            five_rate: 6,
            four_rate: 51,
            split_rates: (55, 45),
            five_pity: 73,
            four_pity: 8,
            epitomized_path: false,
            capturing_radiance: false,
            pity_model: PityModel::Escalating,
        }
    }
}

} // verus!
