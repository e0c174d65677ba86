//! The trial engine: runs draws until the goal is met and reports how many
//! it took.
use vstd::prelude::*;
use rand::rngs::SmallRng;
use crate::banner::{Banner, ConfigError, RATE_SCALE};
use crate::goal::{CustomGoal, CustomGoalView, Goal, GoalKind};
use crate::item::Pool;
use crate::progress::GoalData;
use crate::rng::{below, ratio_flip, rng_from_entropy, rng_from_seed};

verus! {

/// A trial that has not met its goal after this many draws is given up: the
/// goal cannot be reached on the banner, or practically never.
pub const MAX_DRAWS_PER_TRIAL: u32 = 10_000_000;

/// The outcome of a draw, given its roll in `0..RATE_SCALE` and the flip that
/// decides focus against non-focus: a roll under the top rate lands in the top
/// tier, one under the sum of both rates in the mid tier, the rest is filler.
/// A tier's pending guarantee makes its hit a focus hit.
pub open spec fn pool_for(
    five_prob: int,
    four_prob: int,
    five_focus: bool,
    four_focus: bool,
    roll: int,
    focus_flip: bool,
) -> Pool {
    if roll < five_prob {
        if five_focus || focus_flip {
            Pool::FivestarFocus
        } else {
            Pool::Fivestar
        }
    } else if roll < five_prob + four_prob {
        if four_focus || focus_flip {
            Pool::FourstarFocus
        } else {
            Pool::Fourstar
        }
    } else {
        Pool::Threestar
    }
}

/// The (category, slot) that a draw collects. A draw on the epitomized path
/// collects the selected item: slot 0 of the top-tier weapons. Otherwise a
/// focus draw collects the `which`-th focus item of its tier, counting the
/// character slots first; other draws, and focus draws of a tier that features
/// no focus item, collect none.
pub open spec fn target_of(banner: Banner, sample: Pool, path: bool, which: int) -> Option<
    (int, int),
> {
    if path {
        Some((1, 0))
    } else if (sample is FivestarFocus || sample is FourstarFocus) && banner.tier_slots(
        sample.is_top(),
    ) <= 0 {
        None
    } else if sample is FivestarFocus {
        if which < banner.focus(0) {
            Some((0, which))
        } else {
            Some((1, which - banner.focus(0)))
        }
    } else if sample is FourstarFocus {
        if which < banner.focus(2) {
            Some((2, which))
        } else {
            Some((3, which - banner.focus(2)))
        }
    } else {
        None
    }
}

/// How a draw changes the fate points of the epitomized path: a draw on the
/// path spends one; a top-tier non-focus hit, or a focus hit on a top-tier
/// weapon other than the selected one, earns one.
pub open spec fn fate_change(sample: Pool, path: bool, target: Option<(int, int)>) -> int {
    if path {
        -1
    } else if sample is Fivestar {
        1
    } else if target matches Some((c, s)) && c == 1 && s != 0 {
        1
    } else {
        0
    }
}

/// Goal progress `new` is `old` after collecting `target`, if any.
pub open spec fn progress_after(
    old: GoalData,
    new: GoalData,
    kind: GoalKind,
    target: Option<(int, int)>,
) -> bool {
    match target {
        Some((c, s)) => new.lists() == old.lists_after_hit(c, s) && new.items_needed@
            == old.flags_after_hit(kind, c, s),
        None => new.lists() == old.lists() && new.items_needed@ == old.items_needed@,
    }
}

/// Drawing `sample` (on the epitomized path when `path`), with `which` as the
/// uniform pick among the tier's focus items, takes goal progress from `old`
/// to `new` and changes the fate points by `change`.
pub open spec fn draw_effect(
    banner: Banner,
    kind: GoalKind,
    old: GoalData,
    new: GoalData,
    sample: Pool,
    path: bool,
    which: int,
    change: int,
) -> bool {
    let t = target_of(banner, sample, path, which);
    &&& (!path && t is Some ==> 0 <= which < banner.tier_slots(sample.is_top()))
    &&& progress_after(old, new, kind, t)
    &&& change == fate_change(sample, path, t)
}

/// The outcome of a draw for its `roll` in `0..RATE_SCALE` and the flip that
/// decides focus against non-focus.
pub fn pick_pool(
    five_prob: u64,
    four_prob: u64,
    five_focus: bool,
    four_focus: bool,
    roll: u64,
    focus_flip: bool,
) -> (r: Pool)
    requires
        five_prob < 0x4000_0000_0000_0000,
        four_prob < 0x4000_0000_0000_0000,
    ensures
        r == pool_for(five_prob as int, four_prob as int, five_focus, four_focus, roll as int, focus_flip),
{
    if roll < five_prob {
        if five_focus || focus_flip {
            Pool::FivestarFocus
        } else {
            Pool::Fivestar
        }
    } else if roll < five_prob + four_prob {
        if four_focus || focus_flip {
            Pool::FourstarFocus
        } else {
            Pool::Fourstar
        }
    } else {
        Pool::Threestar
    }
}

/// The (category, slot) that a draw collects, where `which` is the pick among
/// the focus items of the tier that it hit.
pub fn focus_target(banner: &Banner, sample: Pool, path: bool, which: u32) -> (r: Option<
    (usize, usize),
>)
    requires
        banner.focus_ok(),
    ensures
        match r {
            Some((c, s)) => target_of(*banner, sample, path, which as int) == Some(
                (c as int, s as int),
            ) && c < 4,
            None => target_of(*banner, sample, path, which as int) is None,
        },
{
    if path {
        return Some((1, 0));
    }
    let top = sample == Pool::FivestarFocus;
    if !top && sample != Pool::FourstarFocus {
        return None;
    }
    if banner.focus_slots(top) == 0 {
        return None;
    }
    let first = if top {
        banner.focus_sizes[0]
    } else {
        banner.focus_sizes[2]
    };
    assert(banner.focus(0) >= 0 && banner.focus(2) >= 0);
    if which < first as u32 {
        Some((if top { 0 } else { 2 }, which as usize))
    } else {
        Some((if top { 1 } else { 3 }, (which - first as u32) as usize))
    }
}

/// The pity counters of a trial.
#[derive(Copy, Clone, PartialEq, Eq, Debug, Structural)]
pub struct PityState {
    /// Draws since the last top-tier hit, counting the coming one.
    pub five_count: u32,
    /// Draws since the last mid-tier hit, counting the coming one.
    pub four_count: u32,
    /// The next top-tier hit is a focus hit.
    pub five_guarantee: bool,
    /// The next mid-tier hit is a focus hit.
    pub four_guarantee: bool,
    /// Points of the capturing-radiance mechanic, earned by top-tier hits that
    /// miss the focus.
    pub capturing_points: u8,
}

impl PityState {
    pub open spec fn start_spec() -> PityState {
        PityState {
            five_count: 1,
            four_count: 1,
            five_guarantee: false,
            four_guarantee: false,
            capturing_points: 0,
        }
    }

    /// The counters at the start of a trial.
    pub fn start() -> (r: PityState)
        ensures
            r == PityState::start_spec(),
    {
        PityState {
            five_count: 1,
            four_count: 1,
            five_guarantee: false,
            four_guarantee: false,
            capturing_points: 0,
        }
    }

    /// The counters after a draw that sampled `sampled`, and the outcome that
    /// the draw stands for. A hit resets its tier's counter and the other
    /// tier's counter grows; a non-focus hit guarantees that tier's next hit.
    /// Under capturing radiance a top-tier miss earns a point instead: with two
    /// points `won_flip` turns the miss into a focus hit, with three it always
    /// is one; a focus hit that was not guaranteed clears the points.
    pub open spec fn after(self, sampled: Pool, radiance: bool, won_flip: bool) -> (
        PityState,
        Pool,
    ) {
        let top_hit = PityState { five_count: 1, four_count: (self.four_count + 1) as u32, ..self };
        let mid_hit = PityState { five_count: (self.five_count + 1) as u32, four_count: 1, ..self };
        match sampled {
            Pool::FivestarFocus => (
                PityState {
                    five_guarantee: false,
                    capturing_points: if radiance && !self.five_guarantee {
                        0
                    } else {
                        self.capturing_points
                    },
                    ..top_hit
                },
                Pool::FivestarFocus,
            ),
            Pool::Fivestar => {
                if !radiance {
                    (PityState { five_guarantee: true, ..top_hit }, Pool::Fivestar)
                } else if self.capturing_points < 2 || (self.capturing_points == 2 && !won_flip) {
                    (
                        PityState {
                            five_guarantee: true,
                            capturing_points: (self.capturing_points + 1) as u8,
                            ..top_hit
                        },
                        Pool::Fivestar,
                    )
                } else {
                    (
                        PityState { five_guarantee: false, capturing_points: 0, ..top_hit },
                        Pool::FivestarFocus,
                    )
                }
            },
            Pool::FourstarFocus => (PityState { four_guarantee: false, ..mid_hit }, sampled),
            Pool::Fourstar => (PityState { four_guarantee: true, ..mid_hit }, sampled),
            Pool::Threestar => (
                PityState {
                    five_count: (self.five_count + 1) as u32,
                    four_count: (self.four_count + 1) as u32,
                    ..self
                },
                sampled,
            ),
        }
    }

    pub fn after_draw(self, sampled: Pool, radiance: bool, won_flip: bool) -> (r: (
        PityState,
        Pool,
    ))
        requires
            self.five_count < u32::MAX,
            self.four_count < u32::MAX,
            self.capturing_points < u8::MAX,
        ensures
            r == self.after(sampled, radiance, won_flip),
    {
        let mut next = self;
        let outcome = match sampled {
            Pool::FivestarFocus => {
                if radiance && !self.five_guarantee {
                    next.capturing_points = 0;
                }
                next.five_count = 1;
                next.four_count = self.four_count + 1;
                next.five_guarantee = false;
                sampled
            },
            Pool::Fivestar => {
                next.five_count = 1;
                next.four_count = self.four_count + 1;
                if !radiance {
                    next.five_guarantee = true;
                    sampled
                } else if self.capturing_points < 2 || (self.capturing_points == 2 && !won_flip) {
                    next.capturing_points = self.capturing_points + 1;
                    next.five_guarantee = true;
                    sampled
                } else {
                    next.capturing_points = 0;
                    next.five_guarantee = false;
                    Pool::FivestarFocus
                }
            },
            Pool::FourstarFocus => {
                next.five_count = self.five_count + 1;
                next.four_count = 1;
                next.four_guarantee = false;
                sampled
            },
            Pool::Fourstar => {
                next.five_count = self.five_count + 1;
                next.four_count = 1;
                next.four_guarantee = true;
                sampled
            },
            Pool::Threestar => {
                next.five_count = self.five_count + 1;
                next.four_count = self.four_count + 1;
                sampled
            },
        };
        (next, outcome)
    }
}

/// One draw of a trial: the pity counters before it, the outcome sampled at
/// those counters' rates, the outcome that the draw stands for once pity
/// mechanics are applied, the counters after it, and the fate points of the
/// epitomized path before and after it.
pub struct DrawRecord {
    pub pity: PityState,
    pub sampled: Pool,
    pub outcome: Pool,
    pub next: PityState,
    pub fate: u8,
    pub next_fate: u8,
}

/// A draw goes to the selected item exactly when the banner has the epitomized
/// path, the draw is a top-tier hit and a fate point is held.
pub open spec fn on_path(banner: Banner, d: DrawRecord) -> bool {
    banner.epitomized_path && d.outcome.is_top() && d.fate >= 1
}

/// A focus flip that the banner's split allows: an all-focus split always
/// gives focus, a no-focus split never does.
pub open spec fn flip_fits(focus_percent: u8, focus_flip: bool) -> bool {
    &&& focus_percent == 100 ==> focus_flip
    &&& focus_percent == 0 ==> !focus_flip
}

/// The sampled outcome is one that some roll and some focus flip that the
/// split allows give at the banner's rates for the record's counters.
pub open spec fn sampled_at_rates(banner: Banner, d: DrawRecord) -> bool {
    exists|roll: int, focus_flip: bool|
        0 <= roll < RATE_SCALE && flip_fits(banner.split_rates.0, focus_flip) && d.sampled == pool_for(
            banner.top_rate(d.pity.five_count as int),
            banner.mid_rate(d.pity.four_count as int),
            d.pity.five_guarantee,
            d.pity.four_guarantee,
            roll,
            focus_flip,
        )
}

/// The outcome and the next counters follow from the sample by the pity rules,
/// for some capturing-radiance flip.
pub open spec fn settled(banner: Banner, d: DrawRecord) -> bool {
    exists|won_flip: bool|
        d.pity.after(d.sampled, banner.capturing_radiance, won_flip) == (d.next, d.outcome)
}

/// `log` is the record of a trial's draws on `banner`: it starts from fresh
/// counters, each draw starts from the counters the previous one left, and
/// each draw is sampled and settled by the rules.
#[verifier::opaque]
pub open spec fn valid_trial_log(banner: Banner, log: Seq<DrawRecord>) -> bool {
    &&& log.len() > 0 ==> log[0].pity == PityState::start_spec()
    &&& forall|i: int| 0 <= i < log.len() ==> sampled_at_rates(banner, #[trigger] log[i])
    &&& forall|i: int| 0 <= i < log.len() ==> settled(banner, #[trigger] log[i])
    &&& forall|i: int| 0 <= i < log.len() - 1 ==> #[trigger] log[i + 1].pity == log[i].next
    &&& log.len() > 0 ==> log[0].fate == 0
    &&& forall|i: int| 0 <= i < log.len() - 1 ==> #[trigger] log[i + 1].fate == log[i].next_fate
}

/// Draw `d` takes goal progress from `old` to `new`: it collects the selected
/// item when it is on the epitomized path, and otherwise the target of some
/// pick among its tier's focus items. Under the epitomized path the fate
/// points change by the draw's fate change; otherwise they stay as they are.
pub open spec fn progress_step(
    banner: Banner,
    kind: GoalKind,
    old: GoalData,
    new: GoalData,
    d: DrawRecord,
) -> bool {
    exists|which: int, change: int|
        #[trigger] draw_effect(banner, kind, old, new, d.outcome, on_path(banner, d), which, change)
            && d.next_fate == if banner.epitomized_path {
            d.fate + change
        } else {
            d.fate as int
        }
}

/// `log` is the goal progress of a trial of `goal` over the draws `draws`: it
/// starts fresh for the goal, each draw changes it by the progress rules, and
/// `met` records after each draw whether the goal was met.
#[verifier::opaque]
pub open spec fn valid_progress_log(
    banner: Banner,
    goal: CustomGoalView,
    draws: Seq<DrawRecord>,
    met: Seq<bool>,
    log: Seq<GoalData>,
) -> bool {
    &&& log.len() == draws.len() + 1
    &&& met.len() == draws.len()
    &&& log[0].fresh_for(goal)
    &&& forall|i: int|
        0 <= i < draws.len() ==> progress_step(
            banner,
            goal.kind,
            #[trigger] log[i],
            log[i + 1],
            draws[i],
        )
    &&& forall|i: int| 0 <= i < met.len() ==> #[trigger] met[i] == log[i + 1].met()
}

proof fn lemma_extend_trial_log(banner: Banner, log: Seq<DrawRecord>, d: DrawRecord)
    requires
        valid_trial_log(banner, log),
        log.len() == 0 ==> d.pity == PityState::start_spec(),
        log.len() > 0 ==> d.pity == log.last().next,
        log.len() == 0 ==> d.fate == 0,
        log.len() > 0 ==> d.fate == log.last().next_fate,
        sampled_at_rates(banner, d),
        settled(banner, d),
    ensures
        valid_trial_log(banner, log.push(d)),
{
    reveal(valid_trial_log);
    let n = log.push(d);
    assert forall|i: int| 0 <= i < n.len() implies sampled_at_rates(banner, #[trigger] n[i])
        && settled(banner, n[i]) by {
        if i < log.len() {
            assert(n[i] == log[i]);
        }
    }
    assert forall|i: int| 0 <= i < n.len() - 1 implies #[trigger] n[i + 1].pity == n[i].next by {
        assert(n[i] == log[i]);
        if i + 1 < log.len() {
            assert(n[i + 1] == log[i + 1]);
        }
    }
    assert forall|i: int| 0 <= i < n.len() - 1 implies #[trigger] n[i + 1].fate == n[i].next_fate by {
        assert(n[i] == log[i]);
        if i + 1 < log.len() {
            assert(n[i + 1] == log[i + 1]);
        }
    }
}

proof fn lemma_extend_progress_log(
    banner: Banner,
    goal: CustomGoalView,
    draws: Seq<DrawRecord>,
    met: Seq<bool>,
    log: Seq<GoalData>,
    d: DrawRecord,
    p: GoalData,
)
    requires
        valid_progress_log(banner, goal, draws, met, log),
        progress_step(banner, goal.kind, log.last(), p, d),
    ensures
        valid_progress_log(banner, goal, draws.push(d), met.push(p.met()), log.push(p)),
{
    reveal(valid_progress_log);
    let (nd, nm, nl) = (draws.push(d), met.push(p.met()), log.push(p));
    assert(nl[0] == log[0]);
    assert forall|i: int| 0 <= i < nd.len() implies progress_step(
        banner,
        goal.kind,
        #[trigger] nl[i],
        nl[i + 1],
        nd[i],
    ) by {
        assert(nl[i] == log[i]);
        if i < draws.len() {
            assert(nl[i + 1] == log[i + 1] && nd[i] == draws[i]);
        }
    }
    assert forall|i: int| 0 <= i < nm.len() implies #[trigger] nm[i] == nl[i + 1].met() by {
        if i < met.len() {
            assert(nm[i] == met[i] && nl[i + 1] == log[i + 1]);
        }
    }
}

/// A structure holding the information for a sequence of summoning
/// sessions done until a certain goal is reached. Keeps some cached information
/// in order to make the simulation as fast as possible.
pub struct Sim {
    banner: Banner,
    goal: CustomGoal,
    rng: SmallRng,
    goal_data: GoalData,
    /// Whether the goal was met after each draw of the last trial.
    met_log: Ghost<Seq<bool>>,
    /// The draws of the last trial.
    draw_log: Ghost<Seq<DrawRecord>>,
    /// The goal progress at the start of the last trial and after each draw.
    progress_log: Ghost<Seq<GoalData>>,
}

impl Sim {
    pub closed spec fn banner(&self) -> Banner {
        self.banner
    }

    /// The goal as a custom goal, expanded against the banner.
    pub closed spec fn goal(&self) -> CustomGoalView {
        self.goal@
    }

    /// The goal progress as the last trial left it.
    pub closed spec fn progress(&self) -> GoalData {
        self.goal_data
    }

    /// For each draw of the last trial, whether the goal was met after it.
    pub closed spec fn met_log(&self) -> Seq<bool> {
        self.met_log@
    }

    /// The draws of the last trial.
    pub closed spec fn draw_log(&self) -> Seq<DrawRecord> {
        self.draw_log@
    }

    /// The goal progress at the start of the last trial and after each draw.
    pub closed spec fn progress_log(&self) -> Seq<GoalData> {
        self.progress_log@
    }

    pub closed spec fn wf(&self) -> bool {
        &&& self.banner.is_valid()
        &&& self.goal_data.wf(self.goal.kind)
    }

    /// Every engine holds a valid banner, so its focus and non-focus
    /// percentages add up to 100; construction establishes this and every
    /// trial keeps it.
    pub proof fn law_engine_banner_valid(&self)
        requires
            self.wf(),
        ensures
            self.banner().is_valid(),
            self.banner().split_rates.0 + self.banner().split_rates.1 == 100,
    {
    }

    /// Creates a new simulator for the given banner and goal, doing some
    /// moderately expensive initialization. Avoid running in a hot loop, but
    /// it's not a problem to call somewhat frequently. The random stream is
    /// seeded by the operating system.
    pub fn new(banner: Banner, goal: Goal) -> (r: Result<Sim, ConfigError>)
        ensures
            r is Ok <==> banner.is_valid(),
            r matches Err(e) ==> banner.config_error() == Some(e),
            r matches Ok(sim) ==> sim.wf() && sim.banner() == banner && sim.goal()
                == goal@.expand(banner),
    {
        Sim::build(banner, goal, rng_from_entropy())
    }

    /// As `new`, with a random stream fixed by `seed`.
    pub fn with_seed(banner: Banner, goal: Goal, seed: u64) -> (r: Result<Sim, ConfigError>)
        ensures
            r is Ok <==> banner.is_valid(),
            r matches Err(e) ==> banner.config_error() == Some(e),
            r matches Ok(sim) ==> sim.wf() && sim.banner() == banner && sim.goal()
                == goal@.expand(banner),
    {
        Sim::build(banner, goal, rng_from_seed(seed))
    }

    fn build(banner: Banner, goal: Goal, rng: SmallRng) -> (r: Result<Sim, ConfigError>)
        ensures
            r is Ok <==> banner.is_valid(),
            r matches Err(e) ==> banner.config_error() == Some(e),
            r matches Ok(sim) ==> sim.wf() && sim.banner() == banner && sim.goal()
                == goal@.expand(banner),
    {
        match banner.validate() {
            Ok(()) => {},
            Err(e) => return Err(e),
        }
        let custom = goal.as_custom(&banner);
        let goal_data = GoalData::new();
        Ok(Sim { banner, goal: custom, rng, goal_data, met_log: Ghost(Seq::empty()), draw_log: Ghost(Seq::empty()), progress_log: Ghost(Seq::empty()) })
    }

    // Initializes the internal representation of a goal.
    fn init_goal_data(&mut self)
        requires
            old(self).wf(),
        ensures
            final(self).wf(),
            final(self).goal_data.fresh_for(final(self).goal@),
            final(self).banner == old(self).banner,
            final(self).goal == old(self).goal,
    {
        self.goal_data.reset(&self.goal);
    }

    /// Chooses a weighted random unit from the summoning pool, for rates
    /// `five_prob` and `four_prob` out of `RATE_SCALE`.
    fn sample_pool(&mut self, five_prob: u64, four_prob: u64, five_focus: bool, four_focus: bool) -> (r:
        Pool)
        requires
            old(self).banner.split_ok(),
            five_prob < 0x4000_0000_0000_0000,
            four_prob < 0x4000_0000_0000_0000,
        ensures
            exists|roll: int, focus_flip: bool|
                0 <= roll < RATE_SCALE && flip_fits(old(self).banner.split_rates.0, focus_flip)
                    && r == pool_for(
                    five_prob as int,
                    four_prob as int,
                    five_focus,
                    four_focus,
                    roll,
                    focus_flip,
                ),
            final(self).banner == old(self).banner,
            final(self).goal == old(self).goal,
            final(self).goal_data == old(self).goal_data,
            final(self).met_log == old(self).met_log,
            final(self).draw_log == old(self).draw_log,
            final(self).progress_log == old(self).progress_log,
    {
        let roll = below(&mut self.rng, RATE_SCALE) as u64;
        let focus_flip = if roll < five_prob + four_prob {
            ratio_flip(&mut self.rng, self.banner.split_rates.0 as u32, 100)
        } else {
            self.banner.split_rates.0 == 100
        };
        pick_pool(five_prob, four_prob, five_focus, four_focus, roll, focus_flip)
    }

    /// Evaluates the result of selecting the given sample. Returns how fate
    /// points should be adjusted.
    fn pull_item(&mut self, sample: Pool, path: bool) -> (r: i8)
        requires
            old(self).wf(),
            path ==> sample.is_top(),
        ensures
            final(self).wf(),
            final(self).banner == old(self).banner,
            final(self).goal == old(self).goal,
            final(self).met_log == old(self).met_log,
            final(self).draw_log == old(self).draw_log,
            final(self).progress_log == old(self).progress_log,
            exists|which: int|
                #[trigger] draw_effect(
                    old(self).banner,
                    old(self).goal.kind,
                    old(self).goal_data,
                    final(self).goal_data,
                    sample,
                    path,
                    which,
                    r as int,
                ),
    {
        if sample == Pool::Threestar || sample == Pool::Fourstar {
            assert(draw_effect(self.banner, self.goal.kind, self.goal_data, self.goal_data,
                sample, path, 0, 0));
            return 0;
        } else if sample == Pool::Fivestar && !path {
            assert(draw_effect(self.banner, self.goal.kind, self.goal_data, self.goal_data,
                sample, path, 0, 1));
            return 1;
        }
        let slots = self.banner.focus_slots(sample == Pool::FivestarFocus);
        let which = if !path && slots > 0 {
            below(&mut self.rng, slots)
        } else {
            0
        };
        let ghost before = self.goal_data;
        let r: i8 = match focus_target(&self.banner, sample, path, which) {
            Some((idx, idy)) => {
                self.goal_data.record_hit(self.goal.kind, idx, idy);
                if path {
                    -1
                } else if idx == 1 && idy != 0 {
                    1
                } else {
                    0
                }
            },
            None => 0,
        };
        assert(draw_effect(self.banner, self.goal.kind, before, self.goal_data, sample, path,
            which as int, r as int));
        r
    }

    /// One draw of a trial from the pity counters `pity` and the fate points
    /// `fate_points`: records it, applies it to the goal progress, and returns
    /// the counters and fate points after it.
    fn draw(&mut self, pity: PityState, fate_points: u8) -> (r: (PityState, u8))
        requires
            old(self).wf(),
            1 <= pity.five_count < MAX_DRAWS_PER_TRIAL + 1,
            1 <= pity.four_count < MAX_DRAWS_PER_TRIAL + 1,
            pity.capturing_points <= 3,
            fate_points <= 1,
        ensures
            final(self).wf(),
            final(self).banner == old(self).banner,
            final(self).goal == old(self).goal,
            final(self).met_log == old(self).met_log,
            1 <= r.0.five_count <= pity.five_count + 1,
            1 <= r.0.four_count <= pity.four_count + 1,
            r.0.capturing_points <= 3,
            r.1 <= 1,
            final(self).draw_log@.len() == old(self).draw_log@.len() + 1,
            final(self).draw_log@.drop_last() == old(self).draw_log@,
            final(self).draw_log@.last().pity == pity,
            final(self).draw_log@.last().next == r.0,
            final(self).draw_log@.last().fate == fate_points,
            final(self).draw_log@.last().next_fate == r.1,
            sampled_at_rates(old(self).banner, final(self).draw_log@.last()),
            settled(old(self).banner, final(self).draw_log@.last()),
            final(self).progress_log@ == old(self).progress_log@.push(final(self).goal_data),
            progress_step(
                old(self).banner,
                old(self).goal.kind,
                old(self).goal_data,
                final(self).goal_data,
                final(self).draw_log@.last(),
            ),
    {
        let mut fate_points = fate_points;
        let five_prob = self.banner.top_rate_at(pity.five_count);
        let four_prob = self.banner.mid_rate_at(pity.four_count);
        let sampled = self.sample_pool(
            five_prob,
            four_prob,
            pity.five_guarantee,
            pity.four_guarantee,
        );
        let radiance = self.banner.capturing_radiance;
        let won_flip = if radiance && sampled == Pool::Fivestar && pity.capturing_points == 2 {
            below(&mut self.rng, 2) == 0
        } else {
            false
        };
        let (next, sampled_pool) = pity.after_draw(sampled, radiance, won_flip);
        let ghost before = self.goal_data;
        let fate_before = fate_points;
        let path = self.banner.epitomized_path && (sampled_pool == Pool::Fivestar || sampled_pool
            == Pool::FivestarFocus) && fate_points >= 1;
        let change = self.pull_item(sampled_pool, path);
        let ghost which = choose|which: int|
            #[trigger] draw_effect(
                self.banner,
                self.goal.kind,
                before,
                self.goal_data,
                sampled_pool,
                path,
                which,
                change as int,
            );
        if self.banner.epitomized_path {
            if change > 0 {
                fate_points += 1;
            } else if change < 0 {
                fate_points -= 1;
            }
        }
        let ghost record = DrawRecord {
            pity,
            sampled,
            outcome: sampled_pool,
            next,
            fate: fate_before,
            next_fate: fate_points,
        };
        assert(record.pity.after(record.sampled, self.banner.capturing_radiance, won_flip) == (
            record.next,
            record.outcome,
        ));
        assert(on_path(self.banner, record) == path);
        assert(draw_effect(self.banner, self.goal.kind, before, self.goal_data, sampled_pool, path,
            which, change as int));
        assert(progress_step(self.banner, self.goal.kind, before, self.goal_data, record));
        let ghost prev_log = self.draw_log@;
        self.draw_log = Ghost(self.draw_log@.push(record));
        self.progress_log = Ghost(self.progress_log@.push(self.goal_data));
        assert(self.draw_log@.drop_last() =~= prev_log);
        (next, fate_points)
    }

    /// Simulates until reaching the current goal, then returns the number of
    /// draws done; `None` when the goal is still not met after
    /// `MAX_DRAWS_PER_TRIAL` draws.
    pub fn roll_until_goal(&mut self) -> (r: Option<u32>)
        requires
            old(self).wf(),
        ensures
            final(self).wf(),
            final(self).banner() == old(self).banner(),
            final(self).goal() == old(self).goal(),
            match r {
                Some(n) => 1 <= n <= MAX_DRAWS_PER_TRIAL && final(self).met_log().len() == n,
                None => final(self).met_log().len() == MAX_DRAWS_PER_TRIAL,
            },
            forall|i: int|
                0 <= i < final(self).met_log().len() ==> #[trigger] final(self).met_log()[i] == (
                r is Some && i == final(self).met_log().len() - 1),
            final(self).progress().met() == r is Some,
            r is Some && final(self).goal().kind == GoalKind::All
                ==> final(self).progress().all_collected(),
            final(self).draw_log().len() == final(self).met_log().len(),
            valid_trial_log(final(self).banner(), final(self).draw_log()),
            valid_progress_log(
                final(self).banner(),
                final(self).goal(),
                final(self).draw_log(),
                final(self).met_log(),
                final(self).progress_log(),
            ),
            final(self).progress_log().last() == final(self).progress(),
    {
        let mut pity = PityState::start();
        let mut fate_points: u8 = 0;
        let mut pull_count: u32 = 0;
        self.init_goal_data();
        self.met_log = Ghost(Seq::empty());
        self.draw_log = Ghost(Seq::empty());
        self.progress_log = Ghost(Seq::empty().push(self.goal_data));
        assert(valid_trial_log(self.banner, self.draw_log@)) by {
            reveal(valid_trial_log);
        }
        assert(valid_progress_log(
            self.banner,
            self.goal@,
            self.draw_log@,
            self.met_log@,
            self.progress_log@,
        )) by {
            reveal(valid_progress_log);
        }
        while pull_count < MAX_DRAWS_PER_TRIAL
            invariant
                self.wf(),
                self.banner == old(self).banner,
                self.goal == old(self).goal,
                pull_count <= MAX_DRAWS_PER_TRIAL,
                1 <= pity.five_count <= pull_count + 1,
                1 <= pity.four_count <= pull_count + 1,
                pity.capturing_points <= 3,
                fate_points <= 1,
                self.met_log@.len() == pull_count,
                forall|i: int| 0 <= i < pull_count ==> !#[trigger] self.met_log@[i],
                self.draw_log@.len() == pull_count,
                valid_trial_log(self.banner, self.draw_log@),
                pull_count == 0 ==> pity == PityState::start_spec(),
                pull_count > 0 ==> self.draw_log@[pull_count - 1].next == pity,
                pull_count == 0 ==> fate_points == 0,
                pull_count > 0 ==> self.draw_log@[pull_count - 1].next_fate == fate_points,
                valid_progress_log(
                    self.banner,
                    self.goal@,
                    self.draw_log@,
                    self.met_log@,
                    self.progress_log@,
                ),
                self.progress_log@.last() == self.goal_data,
                !self.goal_data.met() || pull_count == 0,
            decreases MAX_DRAWS_PER_TRIAL - pull_count,
        {
            let ghost old_draws = self.draw_log@;
            let ghost old_progress = self.progress_log@;
            let ghost old_met = self.met_log@;
            let (next, fate) = self.draw(pity, fate_points);
            pity = next;
            fate_points = fate;
            pull_count += 1;
            self.met_log = Ghost(self.met_log@.push(self.goal_data.met()));
            proof {
                let d = self.draw_log@.last();
                assert(self.draw_log@ =~= old_draws.push(d));
                lemma_extend_trial_log(self.banner, old_draws, d);
                lemma_extend_progress_log(
                    self.banner,
                    self.goal@,
                    old_draws,
                    old_met,
                    old_progress,
                    d,
                    self.goal_data,
                );
            }

            if self.goal_data.is_met() {
                proof {
                    if self.goal.kind == GoalKind::All {
                        assert forall|c: int| 0 <= c < 4 implies (
                        #[trigger] self.goal_data.copies(c)).len() == 0 by {
                            assert(!self.goal_data.items_needed[c]);
                        }
                    }
                }
                return Some(pull_count);
            }
        }
        None
    }
}

} // verus!
