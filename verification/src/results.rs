//! The verdict state machine: a judged status that leaves `PENDING` at
//! most once, together with the retained comparison outcome.
use vstd::prelude::*;
use crate::compare::{Changeset, Diff};

verus! {

/// The judged status of one test case. `PENDING` is the start state;
/// every other state is terminal.
#[derive(PartialEq, Eq, Structural, Clone, Copy, Debug)]
pub enum BaseStatus {
    AC,
    WA,
    TLE,
    MLE,
    OLE,
    CLE,
    UKE,
    PENDING,
}

/// The outcome of judging one test case.
pub struct BaseResult {
    pub status: BaseStatus,
    pub changeset: Option<Changeset>,
    pub time: i32,
    pub memory: i32,
    pub info: Option<String>,
}

impl Default for BaseResult {
    /// A fresh, still pending result.
    fn default() -> (r: Self)
        ensures
            r.status == BaseStatus::PENDING,
            r.changeset is None,
            r.time == 0,
            r.memory == 0,
            r.info is None,
    {
        Self { status: BaseStatus::PENDING, changeset: None, time: 0, memory: 0, info: None }
    }
}

/// A deep copy of a comparison outcome.
pub fn clone_changeset(changeset: &Changeset) -> (r: Changeset)
    ensures
        r@ == changeset@,
{
    let mut diffs: Vec<Diff> = Vec::new();
    let mut i: usize = 0;
    while i < changeset.diffs.len()
        invariant
            0 <= i <= changeset.diffs@.len(),
            diffs@.map_values(|d: Diff| d@) =~= changeset.diffs@.map_values(|d: Diff| d@).take(
                i as int,
            ),
        decreases changeset.diffs@.len() - i,
    {
        let d = match &changeset.diffs[i] {
            Diff::Same(s) => Diff::Same(s.clone()),
            Diff::Add(s) => Diff::Add(s.clone()),
            Diff::Rem(s) => Diff::Rem(s.clone()),
        };
        proof {
            assert(changeset.diffs@.map_values(|d: Diff| d@)[i as int] == changeset.diffs@[
                i as int
            ]@);
            assert(d@ == changeset.diffs@[i as int]@);
        }
        let ghost pre = diffs@;
        diffs.push(d);
        proof {
            assert(diffs@.map_values(|d: Diff| d@) =~= pre.map_values(|d: Diff| d@).push(d@));
            assert(diffs@.map_values(|d: Diff| d@) =~= changeset.diffs@.map_values(
                |d: Diff| d@,
            ).take(i as int + 1));
        }
        i = i + 1;
    }
    let r = Changeset { diffs, split: changeset.split.clone(), distance: changeset.distance };
    proof {
        assert(changeset.diffs@.map_values(|d: Diff| d@).take(changeset.diffs@.len() as int)
            =~= changeset.diffs@.map_values(|d: Diff| d@));
        assert(r@ =~= changeset@);
    }
    r
}

/// The status a candidate transition leads to: `next` if the machine is
/// still pending, the unchanged current status otherwise.
pub open spec fn updated_status(cur: BaseStatus, next: BaseStatus) -> BaseStatus {
    if cur == BaseStatus::PENDING {
        next
    } else {
        cur
    }
}

/// The status after a whole sequence of candidate transitions, applied
/// in order under the first-transition-wins rule.
pub open spec fn folded_status(init: BaseStatus, evs: Seq<BaseStatus>) -> BaseStatus
    decreases evs.len(),
{
    if evs.len() == 0 {
        init
    } else {
        folded_status(updated_status(init, evs[0]), evs.drop_first())
    }
}

/// A status that has left `PENDING` never moves again, whatever sequence
/// of candidate transitions follows.
pub proof fn lemma_settled_status_is_final(init: BaseStatus, evs: Seq<BaseStatus>)
    requires
        init != BaseStatus::PENDING,
    ensures
        folded_status(init, evs) == init,
    decreases evs.len(),
{
    if evs.len() > 0 {
        lemma_settled_status_is_final(init, evs.drop_first());
    }
}

/// Under any non-empty sequence of candidate transitions out of
/// `PENDING`, only the first one ever takes effect.
pub proof fn lemma_first_transition_wins(evs: Seq<BaseStatus>)
    requires
        evs.len() > 0,
        evs[0] != BaseStatus::PENDING,
    ensures
        folded_status(BaseStatus::PENDING, evs) == evs[0],
{
    lemma_settled_status_is_final(evs[0], evs.drop_first());
}

/// The status that a comparison outcome argues for.
pub open spec fn verdict_of_distance(distance: int) -> BaseStatus {
    if distance != 0 {
        BaseStatus::WA
    } else {
        BaseStatus::AC
    }
}

impl BaseResult {
    /// A comparison outcome decides the verdict once: from `PENDING` the
    /// status moves to `AC` when the distance is zero and to `WA`
    /// otherwise, and the outcome is kept. Later calls change nothing.
    pub fn update(&mut self, changeset: &Changeset)
        ensures
            old(self).status != BaseStatus::PENDING ==> *final(self) == *old(self),
            final(self).status == updated_status(
                old(self).status,
                verdict_of_distance(changeset.distance as int),
            ),
            old(self).status == BaseStatus::PENDING ==> {
                &&& final(self).changeset matches Some(c) && c@ == changeset@
                &&& final(self).time == old(self).time
                &&& final(self).memory == old(self).memory
                &&& final(self).info == old(self).info
            },
    {
        if self.status != BaseStatus::PENDING {
            return;
        }
        if changeset.distance != 0 {
            self.status = BaseStatus::WA;
        } else {
            self.status = BaseStatus::AC;
        }
        self.changeset = Some(clone_changeset(changeset));
    }

    /// Move the verdict to `status` directly, as a resource violation or
    /// a system error does; takes effect only from `PENDING`.
    pub fn set_status(&mut self, status: BaseStatus)
        ensures
            old(self).status != BaseStatus::PENDING ==> *final(self) == *old(self),
            final(self).status == updated_status(old(self).status, status),
            old(self).status == BaseStatus::PENDING ==> {
                &&& final(self).changeset == old(self).changeset
                &&& final(self).time == old(self).time
                &&& final(self).memory == old(self).memory
                &&& final(self).info == old(self).info
            },
    {
        if self.status != BaseStatus::PENDING {
            return;
        }
        self.status = status;
    }
}

/// The capability of folding a comparison outcome into a result.
pub trait ResultTrait {
    fn update(&mut self, changeset: &Changeset);
}

impl ResultTrait for BaseResult {
    fn update(&mut self, changeset: &Changeset) {
        BaseResult::update(self, changeset)
    }
}

} // verus!
