//! Five-way outcome distributions of a draw: top focus, top non-focus, mid
//! focus, mid non-focus and filler, with weights in parts per hundred thousand
//! (a rate in parts per thousand times a percentage).
use vstd::prelude::*;
use crate::banner::{Banner, PityModel, RATE_SCALE};
use crate::item::Pool;
use crate::sim::pool_for;

verus! {

/// The sum of all weights of a table: certainty.
pub const TABLE_TOTAL: u32 = 100_000;

/// The distribution of one draw's outcome.
#[derive(Copy, Clone, PartialEq, Eq, Debug)]
pub struct OutcomeTable {
    pub weights: [u32; 5],
}

/// The weights for a top rate and a mid rate (parts per thousand) and a focus
/// percentage: the top rate is capped at certainty, the mid rate at what the
/// top rate leaves, and filler takes the rest.
pub open spec fn table_weights(top: int, mid: int, focus: int) -> Seq<int> {
    let t = if top < RATE_SCALE { top } else { RATE_SCALE as int };
    let m = if mid < RATE_SCALE - t { mid } else { RATE_SCALE - t };
    seq![t * focus, t * (100 - focus), m * focus, m * (100 - focus), (RATE_SCALE - t - m) * 100]
}

impl OutcomeTable {
    pub open spec fn weight(self, i: int) -> int {
        self.weights[i] as int
    }

    pub open spec fn total(self) -> int {
        self.weight(0) + self.weight(1) + self.weight(2) + self.weight(3) + self.weight(4)
    }

    /// Builds the table for rates `top` and `mid` and a focus share of
    /// `focus` percent.
    pub fn new(top: u64, mid: u64, focus: u8) -> (r: OutcomeTable)
        requires
            focus <= 100,
        ensures
            forall|i: int| 0 <= i < 5 ==> #[trigger] r.weight(i) == table_weights(
                top as int,
                mid as int,
                focus as int,
            )[i],
    {
        let t: u32 = if top < RATE_SCALE as u64 {
            top as u32
        } else {
            RATE_SCALE
        };
        let m: u32 = if mid < (RATE_SCALE - t) as u64 {
            mid as u32
        } else {
            RATE_SCALE - t
        };
        let f = focus as u32;
        assert(t * f <= 100_000 && t * (100 - f) <= 100_000) by (nonlinear_arith)
            requires
                t <= 1000,
                f <= 100,
        ;
        assert(m * f <= 100_000 && m * (100 - f) <= 100_000) by (nonlinear_arith)
            requires
                m <= 1000,
                f <= 100,
        ;
        let r = OutcomeTable {
            weights: [t * f, t * (100 - f), m * f, m * (100 - f), (RATE_SCALE - t - m) * 100],
        };
        assert forall|i: int| 0 <= i < 5 implies #[trigger] r.weight(i) == table_weights(
            top as int,
            mid as int,
            focus as int,
        )[i] by {}
        r
    }

    /// The outcome at position `roll` when the weights are laid end to end in
    /// the order top focus, top, mid focus, mid, filler.
    pub open spec fn outcome_at(self, roll: int) -> Pool {
        let a = self.weight(0);
        let b = a + self.weight(1);
        let c = b + self.weight(2);
        let d = c + self.weight(3);
        if roll < a {
            Pool::FivestarFocus
        } else if roll < b {
            Pool::Fivestar
        } else if roll < c {
            Pool::FourstarFocus
        } else if roll < d {
            Pool::Fourstar
        } else {
            Pool::Threestar
        }
    }

    /// Weighted choice: the outcome for `roll`, a uniform pick below
    /// `TABLE_TOTAL`.
    pub fn pick(&self, roll: u32) -> (r: Pool)
        ensures
            r == self.outcome_at(roll as int),
    {
        let a = self.weights[0] as u64;
        let b = a + self.weights[1] as u64;
        let c = b + self.weights[2] as u64;
        let d = c + self.weights[3] as u64;
        let roll = roll as u64;
        if roll < a {
            Pool::FivestarFocus
        } else if roll < b {
            Pool::Fivestar
        } else if roll < c {
            Pool::FourstarFocus
        } else if roll < d {
            Pool::Fourstar
        } else {
            Pool::Threestar
        }
    }
}

/// The weights of a table add up to certainty, whatever its rates.
pub proof fn law_table_total(top: int, mid: int, focus: int)
    requires
        0 <= top,
        0 <= mid,
        0 <= focus <= 100,
    ensures
        ({
            let w = table_weights(top, mid, focus);
            w[0] + w[1] + w[2] + w[3] + w[4] == TABLE_TOTAL
        }),
        forall|i: int| 0 <= i < 5 ==> #[trigger] table_weights(top, mid, focus)[i] >= 0,
{
    let t = if top < RATE_SCALE { top } else { RATE_SCALE as int };
    let m = if mid < RATE_SCALE - t { mid } else { RATE_SCALE - t };
    assert(t * focus + t * (100 - focus) == t * 100) by (nonlinear_arith);
    assert(m * focus + m * (100 - focus) == m * 100) by (nonlinear_arith);
    assert(t * focus >= 0 && t * (100 - focus) >= 0) by (nonlinear_arith)
        requires
            t >= 0,
            0 <= focus <= 100,
    ;
    assert(m * focus >= 0 && m * (100 - focus) >= 0) by (nonlinear_arith)
        requires
            m >= 0,
            0 <= focus <= 100,
    ;
}

/// The table and the engine's sampling agree on the tier of every draw: lay
/// each of the engine's rolls out as a hundred consecutive table positions,
/// and the table lands in the tier that the roll lands in.
pub proof fn law_table_matches_engine_tiers(
    tab: OutcomeTable,
    top: int,
    mid: int,
    focus: int,
    roll: int,
    offset: int,
    focus_flip: bool,
)
    requires
        0 <= top,
        0 <= mid,
        0 <= focus <= 100,
        forall|i: int| 0 <= i < 5 ==> #[trigger] tab.weight(i) == table_weights(top, mid, focus)[i],
        0 <= roll < RATE_SCALE,
        0 <= offset < 100,
    ensures
        tab.outcome_at(roll * 100 + offset).is_top() == pool_for(
            top,
            mid,
            false,
            false,
            roll,
            focus_flip,
        ).is_top(),
        tab.outcome_at(roll * 100 + offset).is_mid() == pool_for(
            top,
            mid,
            false,
            false,
            roll,
            focus_flip,
        ).is_mid(),
{
    let t = if top < RATE_SCALE { top } else { RATE_SCALE as int };
    let m = if mid < RATE_SCALE - t { mid } else { RATE_SCALE - t };
    assert(tab.weight(0) == t * focus && tab.weight(1) == t * (100 - focus));
    assert(tab.weight(2) == m * focus && tab.weight(3) == m * (100 - focus));
    assert(t * focus + t * (100 - focus) == t * 100) by (nonlinear_arith);
    assert(m * focus + m * (100 - focus) == m * 100) by (nonlinear_arith);
    assert(t * focus >= 0 && m * focus >= 0) by (nonlinear_arith)
        requires
            t >= 0,
            m >= 0,
            focus >= 0,
    ;
    assert((roll * 100 + offset < t * 100) == (roll < t)) by (nonlinear_arith)
        requires
            0 <= offset < 100,
    ;
    assert((roll * 100 + offset < (t + m) * 100) == (roll < t + m)) by (nonlinear_arith)
        requires
            0 <= offset < 100,
    ;
    assert(t * 100 + m * 100 == (t + m) * 100);
}

impl Banner {
    /// The distribution of a draw at the base rates.
    pub fn normal_table(&self) -> (r: OutcomeTable)
        requires
            self.split_ok(),
        ensures
            forall|i: int| 0 <= i < 5 ==> #[trigger] r.weight(i) == table_weights(
                self.five_rate as int,
                self.four_rate as int,
                self.split_rates.0 as int,
            )[i],
    {
        OutcomeTable::new(self.five_rate as u64, self.four_rate as u64, self.split_rates.0)
    }

    /// The distribution of a draw in the soft-pity stage, when the banner uses
    /// the soft/hard model.
    pub fn soft_table(&self) -> (r: Option<OutcomeTable>)
        requires
            self.split_ok(),
        ensures
            match self.pity_model {
                PityModel::SoftHard { soft_rate, .. } => r matches Some(t) && forall|i: int|
                    0 <= i < 5 ==> #[trigger] t.weight(i) == table_weights(
                        soft_rate as int,
                        self.four_rate as int,
                        self.split_rates.0 as int,
                    )[i],
                PityModel::Escalating => r is None,
            },
    {
        match self.pity_model {
            PityModel::SoftHard { soft_rate, .. } => Some(
                OutcomeTable::new(soft_rate as u64, self.four_rate as u64, self.split_rates.0),
            ),
            PityModel::Escalating => None,
        }
    }
}

} // verus!
