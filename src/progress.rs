//! Per-trial bookkeeping of which goal requirements remain.
use vstd::prelude::*;
use crate::goal::{CustomGoal, CustomGoalView, GoalKind, GoalPart};

verus! {

/// Scratch space for representing the goal in a way that is faster to work with:
/// for each category, whether it still holds a requirement, and the copies
/// still needed of each of its parts, in goal order.
#[derive(Debug)]
pub struct GoalData {
    pub items_needed: [bool; 4],
    pub copies_needed: [Vec<u8>; 4],
}

/// The copies needed of each part of category `c` that still needs any, in order.
pub open spec fn outstanding(parts: Seq<GoalPart>, c: int) -> Seq<u8>
    decreases parts.len(),
{
    if parts.len() == 0 {
        Seq::empty()
    } else {
        let rest = outstanding(parts.drop_last(), c);
        let p = parts.last();
        if p.item_type.index_of() == c && p.num_copies > 0 {
            rest.push(p.num_copies)
        } else {
            rest
        }
    }
}

/// Some part of the goal needs no copy at all.
pub open spec fn has_free_part(parts: Seq<GoalPart>) -> bool {
    exists|i: int| 0 <= i < parts.len() && #[trigger] parts[i].num_copies == 0
}

impl GoalData {
    pub open spec fn copies(self, c: int) -> Seq<u8> {
        self.copies_needed[c]@
    }

    pub open spec fn lists(self) -> Seq<Seq<u8>> {
        seq![self.copies(0), self.copies(1), self.copies(2), self.copies(3)]
    }

    /// No category holds a requirement any more.
    pub open spec fn met(self) -> bool {
        !self.items_needed[0] && !self.items_needed[1] && !self.items_needed[2]
            && !self.items_needed[3]
    }

    /// Every part of every category has been collected.
    pub open spec fn all_collected(self) -> bool {
        forall|c: int| 0 <= c < 4 ==> (#[trigger] self.copies(c)).len() == 0
    }

    /// A category holds a requirement exactly when parts of it remain.
    pub open spec fn flags_follow_lists(self) -> bool {
        forall|c: int| 0 <= c < 4 ==> self.items_needed[c] == ((#[trigger] self.copies(c)).len() > 0)
    }

    pub open spec fn wf(self, kind: GoalKind) -> bool {
        &&& forall|c: int, j: int|
            0 <= c < 4 && 0 <= j < self.copies(c).len() ==> #[trigger] self.copies(c)[j] > 0
        &&& match kind {
            GoalKind::All => self.flags_follow_lists(),
            GoalKind::Any => self.met() || self.flags_follow_lists(),
        }
    }

    /// The state at the start of a trial for `goal`: parts that need no copy
    /// are already collected, and under `Any` such a part meets the goal.
    pub open spec fn fresh_for(self, goal: CustomGoalView) -> bool {
        &&& forall|c: int| 0 <= c < 4 ==> #[trigger] self.copies(c) == outstanding(goal.parts, c)
        &&& if goal.kind == GoalKind::Any && has_free_part(goal.parts) {
            self.met()
        } else {
            self.flags_follow_lists()
        }
    }

    /// The lists after a hit on slot `s` of category `c`: the part at that
    /// position loses a copy, and leaves the list when it needed only one.
    pub open spec fn lists_after_hit(self, c: int, s: int) -> Seq<Seq<u8>> {
        let l = self.copies(c);
        if 0 <= s < l.len() {
            if l[s] > 1 {
                self.lists().update(c, l.update(s, (l[s] - 1) as u8))
            } else {
                self.lists().update(c, l.remove(s))
            }
        } else {
            self.lists()
        }
    }

    /// The flags after a hit on slot `s` of category `c`: when a part is
    /// completed, `Any` clears every flag and `All` clears the category's flag
    /// once its list is empty.
    pub open spec fn flags_after_hit(self, kind: GoalKind, c: int, s: int) -> Seq<bool> {
        let l = self.copies(c);
        if 0 <= s < l.len() && l[s] <= 1 {
            match kind {
                GoalKind::Any => seq![false, false, false, false],
                GoalKind::All => self.items_needed@.update(c, l.len() > 1),
            }
        } else {
            self.items_needed@
        }
    }

    pub fn new() -> (r: GoalData)
        ensures
            r.met(),
            r.all_collected(),
    {
        GoalData {
            items_needed: [false, false, false, false],
            copies_needed: [Vec::new(), Vec::new(), Vec::new(), Vec::new()],
        }
    }

    pub fn is_met(&self) -> (r: bool)
        ensures
            r == self.met(),
    {
        !self.items_needed[0] && !self.items_needed[1] && !self.items_needed[2]
            && !self.items_needed[3]
    }

    /// Reinitializes the scratch state for a new trial of `goal`, reusing the
    /// lists' storage.
    pub fn reset(&mut self, goal: &CustomGoal)
        ensures
            final(self).fresh_for(goal@),
            final(self).wf(goal.kind),
    {
        self.items_needed = [false, false, false, false];
        self.copies_needed[0].clear();
        self.copies_needed[1].clear();
        self.copies_needed[2].clear();
        self.copies_needed[3].clear();
        let mut free = false;
        let mut i: usize = 0;
        while i < goal.goals.len()
            invariant
                i <= goal.goals@.len(),
                forall|c: int|
                    0 <= c < 4 ==> #[trigger] self.copies(c) == outstanding(
                        goal.goals@.subrange(0, i as int),
                        c,
                    ),
                self.flags_follow_lists(),
                forall|c: int, j: int|
                    0 <= c < 4 && 0 <= j < self.copies(c).len() ==> #[trigger] self.copies(c)[j]
                        > 0,
                free == has_free_part(goal.goals@.subrange(0, i as int)),
            decreases goal.goals@.len() - i,
        {
            let part = goal.goals[i];
            let ghost before = goal.goals@.subrange(0, i as int);
            let ghost after = goal.goals@.subrange(0, i + 1);
            assert(after.drop_last() =~= before);
            assert(after.last() == part);
            let ghost prev = *self;
            if part.num_copies > 0 {
                let c = part.item_type.index();
                self.copies_needed[c].push(part.num_copies);
                self.items_needed[c] = true;
                assert forall|d: int| 0 <= d < 4 implies #[trigger] self.copies(d) == outstanding(
                    after,
                    d,
                ) by {
                    assert(outstanding(before, d) == prev.copies(d));
                    if d != c {
                        assert(self.copies(d) == prev.copies(d));
                    }
                }
                assert forall|d: int, j: int|
                    0 <= d < 4 && 0 <= j < self.copies(d).len() implies #[trigger] self.copies(
                    d,
                )[j] > 0 by {
                    if d != c {
                        assert(self.copies(d) == prev.copies(d));
                    } else if j < prev.copies(d).len() {
                        assert(self.copies(d)[j] == prev.copies(d)[j]);
                    }
                }
                assert forall|d: int| 0 <= d < 4 implies self.items_needed[d] == ((
                #[trigger] self.copies(d)).len() > 0) by {
                    if d != c {
                        assert(self.copies(d) == prev.copies(d));
                        assert(self.items_needed[d] == prev.items_needed[d]);
                    }
                }
            } else {
                free = true;
                assert(after[i as int] == part);
                assert forall|d: int| 0 <= d < 4 implies #[trigger] self.copies(d) == outstanding(
                    after,
                    d,
                ) by {
                    assert(outstanding(before, d) == prev.copies(d));
                }
            }
            assert forall|k: int| 0 <= k < after.len() && #[trigger] after[k].num_copies == 0 implies (
            k < before.len() && before[k].num_copies == 0) || part.num_copies == 0 by {
                if k < before.len() {
                    assert(after[k] == before[k]);
                }
            }
            assert forall|k: int| 0 <= k < before.len() && #[trigger] before[k].num_copies == 0 implies
            after[k].num_copies == 0 by {
                assert(after[k] == before[k]);
            }
            i += 1;
        }
        assert(goal.goals@.subrange(0, i as int) =~= goal.goals@);
        let ghost prev = *self;
        if goal.kind == GoalKind::Any && free {
            self.items_needed = [false, false, false, false];
        }
        assert(self.lists() == prev.lists());
    }

    /// Records a hit on slot `slot` of category `category`.
    pub fn record_hit(&mut self, kind: GoalKind, category: usize, slot: usize)
        requires
            category < 4,
            old(self).wf(kind),
        ensures
            final(self).wf(kind),
            final(self).lists() == old(self).lists_after_hit(category as int, slot as int),
            final(self).items_needed@ == old(self).flags_after_hit(
                kind,
                category as int,
                slot as int,
            ),
    {
        if slot < self.copies_needed[category].len() {
            if self.copies_needed[category][slot] > 1 {
                let v = self.copies_needed[category][slot] - 1;
                self.copies_needed[category].set(slot, v);
            } else {
                self.copies_needed[category].remove(slot);
                if kind == GoalKind::Any {
                    self.items_needed = [false, false, false, false];
                } else if self.copies_needed[category].len() == 0 {
                    self.items_needed[category] = false;
                }
            }
        }
        assert(self.lists() =~= old(self).lists_after_hit(category as int, slot as int));
        assert(self.items_needed@ =~= old(self).flags_after_hit(
            kind,
            category as int,
            slot as int,
        ));
    }
}

} // verus!
