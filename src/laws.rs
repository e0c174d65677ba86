//! Properties that relate several operations of the library.
use vstd::prelude::*;
use crate::banner::{escalated_rate, Banner, ConfigError, PityModel, ESCALATION_FACTOR, RATE_SCALE};
use crate::goal::{GoalKind, GoalPreset, GoalView};
use crate::item::Pool;
use crate::progress::GoalData;
use crate::goal::CustomGoalView;
use crate::sim::{
    draw_effect, on_path, pool_for, progress_after, progress_step, sampled_at_rates, settled, target_of,
    valid_progress_log, valid_trial_log, DrawRecord, PityState,
};

verus! {

/// A banner passes validation exactly when it breaks no rule, and one whose
/// focus and non-focus percentages do not add up to 100 is refused for that
/// reason first.
pub proof fn law_validation_rules(b: Banner)
    ensures
        b.config_error() is None <==> b.is_valid(),
        b.is_valid() ==> b.split_rates.0 + b.split_rates.1 == 100,
        b.split_rates.0 + b.split_rates.1 != 100 ==> b.config_error() == Some(
            ConfigError::SplitNotHundred,
        ),
{
}

/// Under an `All` goal, progress reports the goal met exactly when every part
/// of every category has been collected.
pub proof fn law_all_goal_met_iff_collected(g: GoalData)
    requires
        g.wf(GoalKind::All),
    ensures
        g.met() <==> g.all_collected(),
{
    if g.met() {
        assert forall|c: int| 0 <= c < 4 implies (#[trigger] g.copies(c)).len() == 0 by {
            assert(!g.items_needed[c]);
        }
    }
    if g.all_collected() {
        assert(g.copies(0).len() == 0 && g.copies(1).len() == 0);
        assert(g.copies(2).len() == 0 && g.copies(3).len() == 0);
    }
}

/// A hit that completes a part meets an `Any` goal at once, while under `All`
/// it leaves the flags of the other categories as they were and clears its
/// own only when no part of the category remains.
pub proof fn law_completing_a_part(g: GoalData, c: int, s: int)
    requires
        0 <= c < 4,
        0 <= s < g.copies(c).len(),
        g.copies(c)[s] <= 1,
    ensures
        g.flags_after_hit(GoalKind::Any, c, s) == seq![false, false, false, false],
        forall|d: int|
            0 <= d < 4 && d != c ==> #[trigger] g.flags_after_hit(GoalKind::All, c, s)[d]
                == g.items_needed[d],
        g.flags_after_hit(GoalKind::All, c, s)[c] == (g.lists_after_hit(c, s)[c].len() > 0),
{
}

/// Expanding a goal against a banner gives a custom goal that any further
/// expansion leaves unchanged.
pub proof fn law_expansion_idempotent(g: GoalView, b1: Banner, b2: Banner)
    ensures
        GoalView::Custom(g.expand(b1)).expand(b2) == g.expand(b1),
{
}

/// Raising the escalation threshold never raises a tier's rate on any draw.
pub proof fn law_escalated_rate_antitone(rate: int, t1: int, t2: int, count: int)
    requires
        0 <= rate,
        t1 <= t2,
    ensures
        escalated_rate(rate, t2, count) <= escalated_rate(rate, t1, count),
{
    if count > t2 {
        assert((count - t2) * ESCALATION_FACTOR * rate <= (count - t1) * ESCALATION_FACTOR * rate)
            by (nonlinear_arith)
            requires
                0 <= count - t2 <= count - t1,
                0 <= rate,
        ;
    } else if count > t1 {
        assert((count - t1) * ESCALATION_FACTOR * rate >= 0) by (nonlinear_arith)
            requires
                count - t1 >= 0,
                0 <= rate,
        ;
    }
}

/// Holding all else fixed, later pity thresholds never raise the top-tier or
/// mid-tier rate of any draw: under the escalating model a later threshold,
/// under the soft/hard model later soft and hard indices (when the soft rate
/// lies between the base rate and certainty).
pub proof fn law_later_pity_never_raises_rates(b1: Banner, b2: Banner, count: int)
    requires
        b1.five_rate == b2.five_rate,
        b1.four_rate == b2.four_rate,
        b1.four_pity <= b2.four_pity,
        match (b1.pity_model, b2.pity_model) {
            (PityModel::Escalating, PityModel::Escalating) => b1.five_pity <= b2.five_pity,
            (
                PityModel::SoftHard { soft_pity: s1, hard_pity: h1, soft_rate: r1 },
                PityModel::SoftHard { soft_pity: s2, hard_pity: h2, soft_rate: r2 },
            ) => s1 <= s2 && h1 <= h2 && r1 == r2 && b1.five_rate <= r1 <= RATE_SCALE,
            _ => false,
        },
    ensures
        b2.top_rate(count) <= b1.top_rate(count),
        b2.mid_rate(count) <= b1.mid_rate(count),
{
    law_escalated_rate_antitone(b1.four_rate as int, b1.four_pity as int, b2.four_pity as int, count);
    if b1.pity_model is Escalating {
        law_escalated_rate_antitone(
            b1.five_rate as int,
            b1.five_pity as int,
            b2.five_pity as int,
            count,
        );
    }
}

/// On a banner that features no focus item, no preset can be met.
pub proof fn law_no_focus_no_preset(b: Banner, p: GoalPreset)
    requires
        b.focus_sizes@ == seq![0i8, 0i8, 0i8, 0i8],
    ensures
        !p.available_on(b),
        !GoalView::Preset(p, 1).available_on(b),
{
    assert(b.focus(0) == 0 && b.focus(1) == 0 && b.focus(2) == 0 && b.focus(3) == 0) by {
        assert(b.focus_sizes@[0] == 0 && b.focus_sizes@[1] == 0);
        assert(b.focus_sizes@[2] == 0 && b.focus_sizes@[3] == 0);
    }
}

/// A draw whose top-tier rate has reached certainty lands in the top tier,
/// whatever its roll; a pending guarantee makes that hit a focus hit.
pub proof fn law_certain_rate_hits_top_tier(
    five_prob: int,
    four_prob: int,
    five_focus: bool,
    four_focus: bool,
    roll: int,
    focus_flip: bool,
)
    requires
        five_prob >= RATE_SCALE,
        0 <= roll < RATE_SCALE,
    ensures
        pool_for(five_prob, four_prob, five_focus, four_focus, roll, focus_flip).is_top(),
        five_focus ==> pool_for(five_prob, four_prob, five_focus, four_focus, roll, focus_flip)
            == Pool::FivestarFocus,
{
}

/// The top-tier counter restarts at 1 after a top-tier hit and grows by one
/// after any other draw, so it counts the draws since the last top-tier hit;
/// the mid-tier counter does the same for mid-tier hits.
pub proof fn law_pity_counters(s: PityState, sampled: Pool, radiance: bool, won_flip: bool)
    ensures
        ({
            let (next, outcome) = s.after(sampled, radiance, won_flip);
            &&& outcome.is_top() == sampled.is_top()
            &&& next.five_count == if sampled.is_top() {
                1
            } else {
                (s.five_count + 1) as u32
            }
            &&& next.four_count == if sampled.is_mid() {
                1
            } else {
                (s.four_count + 1) as u32
            }
        }),
{
}

/// Under the escalating model with a positive base rate, the top-tier rate
/// reaches certainty once the draws since the last top-tier hit pass the
/// threshold by more than `RATE_SCALE / (ESCALATION_FACTOR * five_rate)`.
pub proof fn law_escalating_hard_pity(b: Banner, count: int)
    requires
        b.pity_model is Escalating,
        b.five_rate > 0,
        count > b.five_pity + RATE_SCALE as int / (ESCALATION_FACTOR * b.five_rate),
    ensures
        b.top_rate(count) >= RATE_SCALE,
{
    let step = ESCALATION_FACTOR as int * b.five_rate;
    let q = RATE_SCALE as int / step;
    assert(RATE_SCALE < (q + 1) * step) by (nonlinear_arith)
        requires
            step > 0,
            q == RATE_SCALE as int / step,
    ;
    assert((count - b.five_pity) * step >= (q + 1) * step) by (nonlinear_arith)
        requires
            count - b.five_pity >= q + 1,
            step > 0,
    ;
    let d = count - b.five_pity;
    let r = b.five_rate as int;
    assert(d * 10 * r == d * (10 * r)) by (nonlinear_arith);
}

proof fn lemma_hard_pity_step(banner: Banner, d: DrawRecord, h: int)
    requires
        1 <= h < u32::MAX,
        banner.top_rate(h) >= RATE_SCALE,
        1 <= d.pity.five_count <= h,
        sampled_at_rates(banner, d),
        settled(banner, d),
    ensures
        d.pity.five_count == h ==> d.outcome.is_top(),
        1 <= d.next.five_count <= h,
{
    let (roll, focus_flip) = choose|roll: int, focus_flip: bool|
        0 <= roll < RATE_SCALE && d.sampled == pool_for(
            banner.top_rate(d.pity.five_count as int),
            banner.mid_rate(d.pity.four_count as int),
            d.pity.five_guarantee,
            d.pity.four_guarantee,
            roll,
            focus_flip,
        );
    let won_flip = choose|won_flip: bool|
        d.pity.after(d.sampled, banner.capturing_radiance, won_flip) == (d.next, d.outcome);
    law_pity_counters(d.pity, d.sampled, banner.capturing_radiance, won_flip);
    if d.pity.five_count == h {
        law_certain_rate_hits_top_tier(
            banner.top_rate(h),
            banner.mid_rate(d.pity.four_count as int),
            d.pity.five_guarantee,
            d.pity.four_guarantee,
            roll,
            focus_flip,
        );
    }
}

/// In any trial on a banner whose top-tier rate is certain at `h` draws since
/// the last top-tier hit, no draw comes more than `h` draws after the last
/// top-tier hit, and the `h`-th such draw always is a top-tier hit.
pub proof fn law_hard_pity_in_trials(banner: Banner, log: Seq<DrawRecord>, h: int)
    requires
        1 <= h < u32::MAX,
        banner.top_rate(h) >= RATE_SCALE,
        valid_trial_log(banner, log),
    ensures
        forall|i: int| 0 <= i < log.len() ==> 1 <= (#[trigger] log[i]).pity.five_count <= h,
        forall|i: int|
            0 <= i < log.len() && (#[trigger] log[i]).pity.five_count == h ==> log[i].outcome.is_top(),
    decreases log.len(),
{
    reveal(valid_trial_log);
    if log.len() > 0 {
        let init = log.drop_last();
        assert(valid_trial_log(banner, init)) by {
            assert forall|i: int| 0 <= i < init.len() implies sampled_at_rates(
                banner,
                #[trigger] init[i],
            ) && settled(banner, init[i]) by {
                assert(init[i] == log[i]);
            }
            assert forall|i: int| 0 <= i < init.len() - 1 implies #[trigger] init[i + 1].pity
                == init[i].next by {
                assert(init[i + 1] == log[i + 1]);
                assert(init[i] == log[i]);
            }
        }
        law_hard_pity_in_trials(banner, init, h);
        let last = log.len() - 1;
        assert(sampled_at_rates(banner, log[last]) && settled(banner, log[last]));
        if last == 0 {
            assert(log[0].pity.five_count == 1);
        } else {
            let before = log[last - 1];
            assert(init[last - 1] == before);
            assert(log[(last - 1) + 1].pity == log[last - 1].next);
            assert(sampled_at_rates(banner, before) && settled(banner, before));
            lemma_hard_pity_step(banner, before, h);
        }
        lemma_hard_pity_step(banner, log[last], h);
        assert forall|i: int| 0 <= i < log.len() implies 1 <= (#[trigger] log[i]).pity.five_count <= h
            && (log[i].pity.five_count == h ==> log[i].outcome.is_top()) by {
            if i < last {
                assert(init[i] == log[i]);
            }
        }
    }
}

/// On a banner whose split puts every hit in focus, every top-tier draw of a
/// trial is a top-tier focus hit.
pub proof fn law_full_split_top_hits_are_focus(banner: Banner, log: Seq<DrawRecord>)
    requires
        banner.split_rates.0 == 100,
        valid_trial_log(banner, log),
    ensures
        forall|i: int|
            0 <= i < log.len() && (#[trigger] log[i]).outcome.is_top() ==> log[i].outcome
                == Pool::FivestarFocus,
{
    reveal(valid_trial_log);
    assert forall|i: int|
        0 <= i < log.len() && (#[trigger] log[i]).outcome.is_top() implies log[i].outcome
        == Pool::FivestarFocus by {
        let d = log[i];
        assert(sampled_at_rates(banner, d) && settled(banner, d));
        let won_flip = choose|won_flip: bool|
            d.pity.after(d.sampled, banner.capturing_radiance, won_flip) == (d.next, d.outcome);
        law_pity_counters(d.pity, d.sampled, banner.capturing_radiance, won_flip);
    }
}

proof fn lemma_step_completion(
    banner: Banner,
    kind: GoalKind,
    old: GoalData,
    new: GoalData,
    d: DrawRecord,
)
    requires
        progress_step(banner, kind, old, new, d),
    ensures
        forall|c: int| 0 <= c < 4 ==> (#[trigger] new.copies(c)).len() <= old.copies(c).len(),
        kind == GoalKind::Any && (exists|c: int|
            0 <= c < 4 && (#[trigger] new.copies(c)).len() < old.copies(c).len()) ==> new.met(),
        kind == GoalKind::All && old.flags_follow_lists() ==> new.flags_follow_lists(),
{
    let (which, change) = choose|which: int, change: int|
        #[trigger] draw_effect(banner, kind, old, new, d.outcome, on_path(banner, d), which, change)
            && d.next_fate == if banner.epitomized_path {
            d.fate + change
        } else {
            d.fate as int
        };
    let t = target_of(banner, d.outcome, on_path(banner, d), which);
    assert(progress_after(old, new, kind, t));
    assert(new.copies(0) == new.lists()[0] && new.copies(1) == new.lists()[1]);
    assert(new.copies(2) == new.lists()[2] && new.copies(3) == new.lists()[3]);
    assert(old.copies(0) == old.lists()[0] && old.copies(1) == old.lists()[1]);
    assert(old.copies(2) == old.lists()[2] && old.copies(3) == old.lists()[3]);
    if kind == GoalKind::All && old.flags_follow_lists() {
        assert forall|c: int| 0 <= c < 4 implies new.items_needed[c] == ((
        #[trigger] new.copies(c)).len() > 0) by {
            assert(new.items_needed[c] == new.items_needed@[c]);
            assert(old.items_needed[c] == old.items_needed@[c]);
        }
    }
}

/// In a trial of an `Any` goal, the draw that completes a part (one that
/// leaves some category with fewer parts outstanding) meets the goal.
pub proof fn law_any_trial_met_at_completion(
    banner: Banner,
    goal: CustomGoalView,
    draws: Seq<DrawRecord>,
    met: Seq<bool>,
    log: Seq<GoalData>,
)
    requires
        goal.kind == GoalKind::Any,
        valid_progress_log(banner, goal, draws, met, log),
    ensures
        forall|i: int, c: int|
            0 <= i < draws.len() && 0 <= c < 4 && (#[trigger] log[i + 1].copies(c)).len()
                < log[i].copies(c).len() ==> met[i],
{
    reveal(valid_progress_log);
    assert forall|i: int, c: int|
        0 <= i < draws.len() && 0 <= c < 4 && (#[trigger] log[i + 1].copies(c)).len()
            < log[i].copies(c).len() implies met[i] by {
        assert(progress_step(banner, goal.kind, log[i], log[i + 1], draws[i]));
        lemma_step_completion(banner, goal.kind, log[i], log[i + 1], draws[i]);
    }
}

/// In a trial of an `All` goal, the goal is met after a draw exactly when
/// every part of every category has been collected.
pub proof fn law_all_trial_met_iff_collected(
    banner: Banner,
    goal: CustomGoalView,
    draws: Seq<DrawRecord>,
    met: Seq<bool>,
    log: Seq<GoalData>,
)
    requires
        goal.kind == GoalKind::All,
        valid_progress_log(banner, goal, draws, met, log),
    ensures
        forall|i: int| 0 <= i < met.len() ==> (#[trigger] met[i] <==> log[i + 1].all_collected()),
{
    reveal(valid_progress_log);
    lemma_all_flags_follow(banner, goal, draws, met, log, draws.len() as int);
    assert forall|i: int| 0 <= i < met.len() implies (#[trigger] met[i] <==> log[i
        + 1].all_collected()) by {
        lemma_all_flags_follow(banner, goal, draws, met, log, i + 1);
        let g = log[i + 1];
        if g.met() {
            assert forall|c: int| 0 <= c < 4 implies (#[trigger] g.copies(c)).len() == 0 by {
                assert(!g.items_needed[c]);
            }
        }
        if g.all_collected() {
            assert(g.copies(0).len() == 0 && g.copies(1).len() == 0);
            assert(g.copies(2).len() == 0 && g.copies(3).len() == 0);
        }
    }
}

proof fn lemma_all_flags_follow(
    banner: Banner,
    goal: CustomGoalView,
    draws: Seq<DrawRecord>,
    met: Seq<bool>,
    log: Seq<GoalData>,
    k: int,
)
    requires
        goal.kind == GoalKind::All,
        valid_progress_log(banner, goal, draws, met, log),
        0 <= k <= draws.len(),
    ensures
        log[k].flags_follow_lists(),
    decreases k,
{
    reveal(valid_progress_log);
    if k > 0 {
        lemma_all_flags_follow(banner, goal, draws, met, log, k - 1);
        assert(progress_step(banner, goal.kind, log[k - 1], log[(k - 1) + 1], draws[k - 1]));
        lemma_step_completion(banner, goal.kind, log[k - 1], log[k], draws[k - 1]);
    }
}

proof fn lemma_single_copy_step(
    banner: Banner,
    kind: GoalKind,
    first: GoalData,
    old: GoalData,
    new: GoalData,
    d: DrawRecord,
)
    requires
        kind == GoalKind::Any,
        progress_step(banner, kind, old, new, d),
        old.met() || old.lists() == first.lists(),
        forall|c: int, j: int|
            0 <= c < 4 && 0 <= j < first.copies(c).len() ==> #[trigger] first.copies(c)[j] == 1,
    ensures
        new.met() || new.lists() == first.lists(),
{
    let (which, change) = choose|which: int, change: int|
        #[trigger] draw_effect(banner, kind, old, new, d.outcome, on_path(banner, d), which, change)
            && d.next_fate == if banner.epitomized_path {
            d.fate + change
        } else {
            d.fate as int
        };
    let t = target_of(banner, d.outcome, on_path(banner, d), which);
    assert(progress_after(old, new, kind, t));
    if old.met() {
        assert(new.items_needed[0] == new.items_needed@[0] && old.items_needed[0]
            == old.items_needed@[0]);
        assert(new.items_needed[1] == new.items_needed@[1] && old.items_needed[1]
            == old.items_needed@[1]);
        assert(new.items_needed[2] == new.items_needed@[2] && old.items_needed[2]
            == old.items_needed@[2]);
        assert(new.items_needed[3] == new.items_needed@[3] && old.items_needed[3]
            == old.items_needed@[3]);
    } else if let Some((c, sl)) = t {
        if 0 <= sl < old.copies(c).len() {
            assert(old.lists()[c] == old.copies(c));
            assert(first.lists()[c] == first.copies(c));
            if 0 <= c < 4 {
                assert(old.copies(c)[sl] == 1);
                assert(new.items_needed@ == seq![false, false, false, false]);
                assert(new.items_needed[0] == new.items_needed@[0] && new.items_needed[1]
                    == new.items_needed@[1]);
                assert(new.items_needed[2] == new.items_needed@[2] && new.items_needed[3]
                    == new.items_needed@[3]);
            }
        }
    }
}

proof fn lemma_any_single_copies_stable(
    banner: Banner,
    goal: CustomGoalView,
    draws: Seq<DrawRecord>,
    met: Seq<bool>,
    log: Seq<GoalData>,
    k: int,
)
    requires
        goal.kind == GoalKind::Any,
        valid_progress_log(banner, goal, draws, met, log),
        forall|c: int, j: int|
            0 <= c < 4 && 0 <= j < log[0].copies(c).len() ==> #[trigger] log[0].copies(c)[j] == 1,
        0 <= k <= draws.len(),
    ensures
        log[k].met() || log[k].lists() == log[0].lists(),
    decreases k,
{
    if k > 0 {
        lemma_any_single_copies_stable(banner, goal, draws, met, log, k - 1);
        lemma_log_step(banner, goal, draws, met, log, k - 1);
        lemma_single_copy_step(banner, goal.kind, log[0], log[k - 1], log[(k - 1) + 1], draws[k - 1]);
    }
}

proof fn lemma_log_step(
    banner: Banner,
    goal: CustomGoalView,
    draws: Seq<DrawRecord>,
    met: Seq<bool>,
    log: Seq<GoalData>,
    i: int,
)
    requires
        valid_progress_log(banner, goal, draws, met, log),
        0 <= i < draws.len(),
    ensures
        progress_step(banner, goal.kind, log[i], log[i + 1], draws[i]),
        met[i] == log[i + 1].met(),
{
    reveal(valid_progress_log);
}

proof fn lemma_top_hit_meets(
    banner: Banner,
    kind: GoalKind,
    first: GoalData,
    old: GoalData,
    new: GoalData,
    d: DrawRecord,
)
    requires
        !banner.epitomized_path,
        banner.focus_ok(),
        kind == GoalKind::Any,
        d.outcome == Pool::FivestarFocus,
        progress_step(banner, kind, old, new, d),
        old.met() || old.lists() == first.lists(),
        forall|c: int, j: int|
            0 <= c < 4 && 0 <= j < first.copies(c).len() ==> #[trigger] first.copies(c)[j] == 1,
        first.copies(0).len() >= banner.focus(0),
        first.copies(1).len() >= banner.focus(1),
        banner.tier_slots(true) > 0,
    ensures
        new.met(),
{
    let (which, change) = choose|which: int, change: int|
        #[trigger] draw_effect(banner, kind, old, new, d.outcome, on_path(banner, d), which, change)
            && d.next_fate == if banner.epitomized_path {
            d.fate + change
        } else {
            d.fate as int
        };
    assert(!on_path(banner, d));
    let t = target_of(banner, d.outcome, false, which);
    assert(progress_after(old, new, kind, t));
    assert(0 <= which < banner.tier_slots(true));
    if !old.met() {
        assert(old.lists()[0] == old.copies(0) && first.lists()[0] == first.copies(0));
        assert(old.lists()[1] == old.copies(1) && first.lists()[1] == first.copies(1));
        let (c, sl) = if which < banner.focus(0) {
            (0int, which)
        } else {
            (1int, which - banner.focus(0))
        };
        assert(t == Some((c, sl)));
        assert(0 <= sl < old.copies(c).len());
        assert(old.copies(c)[sl] == 1);
        assert(new.items_needed@ == seq![false, false, false, false]);
        assert(new.items_needed[0] == new.items_needed@[0] && new.items_needed[1]
            == new.items_needed@[1]);
        assert(new.items_needed[2] == new.items_needed@[2] && new.items_needed[3]
            == new.items_needed@[3]);
    }
    if old.met() {
        assert(new.items_needed[0] == new.items_needed@[0] && old.items_needed[0]
            == old.items_needed@[0]);
        assert(new.items_needed[1] == new.items_needed@[1] && old.items_needed[1]
            == old.items_needed@[1]);
        assert(new.items_needed[2] == new.items_needed@[2] && old.items_needed[2]
            == old.items_needed@[2]);
        assert(new.items_needed[3] == new.items_needed@[3] && old.items_needed[3]
            == old.items_needed@[3]);
    }
}

/// On a banner whose split puts every hit in focus and that has no epitomized
/// path, in a trial of an `Any` goal whose tracked parts need one copy each and
/// that tracks a part for every top-tier focus item, every top-tier draw
/// meets the goal.
pub proof fn law_full_split_top_hit_meets_any_goal(
    banner: Banner,
    goal: CustomGoalView,
    draws: Seq<DrawRecord>,
    met: Seq<bool>,
    log: Seq<GoalData>,
)
    requires
        banner.split_rates.0 == 100,
        !banner.epitomized_path,
        banner.focus_ok(),
        goal.kind == GoalKind::Any,
        valid_trial_log(banner, draws),
        valid_progress_log(banner, goal, draws, met, log),
        forall|c: int, j: int|
            0 <= c < 4 && 0 <= j < log[0].copies(c).len() ==> #[trigger] log[0].copies(c)[j] == 1,
        log[0].copies(0).len() >= banner.focus(0),
        log[0].copies(1).len() >= banner.focus(1),
        banner.tier_slots(true) > 0,
    ensures
        forall|i: int| 0 <= i < draws.len() && (#[trigger] draws[i]).outcome.is_top() ==> met[i],
{
    law_full_split_top_hits_are_focus(banner, draws);
    assert forall|i: int| 0 <= i < draws.len() && (#[trigger] draws[i]).outcome.is_top() implies met[i] by {
        lemma_any_single_copies_stable(banner, goal, draws, met, log, i);
        lemma_log_step(banner, goal, draws, met, log, i);
        lemma_top_hit_meets(banner, goal.kind, log[0], log[i], log[i + 1], draws[i]);
    }
}

proof fn lemma_counter_without_top_hit(banner: Banner, log: Seq<DrawRecord>, i: int)
    requires
        valid_trial_log(banner, log),
        0 <= i < log.len(),
        i + 1 < u32::MAX,
    ensures
        (exists|j: int| 0 <= j < i && (#[trigger] log[j]).outcome.is_top())
            || log[i].pity.five_count == i + 1,
    decreases i,
{
    reveal(valid_trial_log);
    if i > 0 {
        lemma_counter_without_top_hit(banner, log, i - 1);
        let d = log[i - 1];
        assert(settled(banner, d));
        let won_flip = choose|won_flip: bool|
            d.pity.after(d.sampled, banner.capturing_radiance, won_flip) == (d.next, d.outcome);
        law_pity_counters(d.pity, d.sampled, banner.capturing_radiance, won_flip);
        assert(log[(i - 1) + 1].pity == log[i - 1].next);
        if d.outcome.is_top() {
            assert(log[i - 1].outcome.is_top());
        }
    }
}

/// The hard-pity scenario: on a banner whose split puts every hit in focus,
/// with no epitomized path and a top-tier rate certain at `h` draws since the
/// last top-tier hit, a trial of an `Any` goal whose tracked parts need one
/// copy each and cover every top-tier focus item, and that is met only at its
/// last draw, takes at most `h` draws.
pub proof fn law_hard_pity_scenario(
    banner: Banner,
    goal: CustomGoalView,
    draws: Seq<DrawRecord>,
    met: Seq<bool>,
    log: Seq<GoalData>,
    h: int,
)
    requires
        banner.split_rates.0 == 100,
        !banner.epitomized_path,
        banner.focus_ok(),
        banner.tier_slots(true) > 0,
        1 <= h < u32::MAX,
        banner.top_rate(h) >= RATE_SCALE,
        goal.kind == GoalKind::Any,
        valid_trial_log(banner, draws),
        valid_progress_log(banner, goal, draws, met, log),
        forall|c: int, j: int|
            0 <= c < 4 && 0 <= j < log[0].copies(c).len() ==> #[trigger] log[0].copies(c)[j] == 1,
        log[0].copies(0).len() >= banner.focus(0),
        log[0].copies(1).len() >= banner.focus(1),
        forall|i: int| 0 <= i < met.len() ==> #[trigger] met[i] == (i == met.len() - 1),
    ensures
        met.len() <= h,
{
    if met.len() > h {
        assert(draws.len() == met.len()) by {
            reveal(valid_progress_log);
        }
        law_full_split_top_hit_meets_any_goal(banner, goal, draws, met, log);
        law_hard_pity_in_trials(banner, draws, h);
        lemma_counter_without_top_hit(banner, draws, h - 1);
        if exists|j: int| 0 <= j < h - 1 && (#[trigger] draws[j]).outcome.is_top() {
            let j = choose|j: int| 0 <= j < h - 1 && (#[trigger] draws[j]).outcome.is_top();
            assert(met[j]);
        } else {
            assert(draws[h - 1].pity.five_count == h);
            assert(draws[h - 1].outcome.is_top());
            assert(met[h - 1]);
        }
    }
}

} // verus!
