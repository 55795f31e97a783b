//! The milestone engine and dispute resolver: submission, approval,
//! rejection, resubmission, disputes and their resolution.

use vstd::prelude::*;
use crate::errors::Error;
use crate::ledger::{
    books_unchanged, bump, credit, escrow_wf, lemma_paid_le_total, milestone_step,
    milestones_evolve, settings_unchanged, SecureFlow,
};
use crate::model::{
    held_by, lemma_outstanding_covers, lemma_outstanding_update, lemma_settled_le_sum,
    lemma_sums_update, outstanding, is_settled, Escrow, Milestone, Transfer,
};
use crate::types::{Address, EscrowStatus, MilestoneStatus};

verus! {

/// Points for the beneficiary and the depositor when a payout of `amount`
/// settles a milestone of `e`: milestone points where `per_milestone` applies,
/// and escrow points to both once the escrow is complete, all only for an
/// escrow whose total reaches the eligibility threshold.
pub open spec fn reward_points(l: &SecureFlow, e: Escrow, amount: u128, per_milestone: bool) -> (u128, u128) {
    let eligible = e.total_amount >= l.config.min_rep_eligible_escrow_value;
    let completes = e.paid_amount + amount == e.total_amount;
    let pm = if eligible && per_milestone { l.config.reputation_per_milestone } else { 0 };
    let pe = if eligible && completes { l.config.reputation_per_escrow } else { 0 };
    ((pm + pe) as u128, pe)
}

/// `b` is `a` with milestone `index` of escrow `id` replaced by `m` and that
/// escrow's status set to `status`; nothing else differs.
pub open spec fn milestone_updated(
    a: &SecureFlow,
    b: &SecureFlow,
    id: u64,
    index: u64,
    m: Milestone,
    status: EscrowStatus,
) -> bool {
    let i = id - 1;
    let e = a.escrow(id);
    let e2 = b.escrows@[i];
    &&& b.escrows@ == a.escrows@.update(i, e2)
    &&& e2.milestones@ == e.milestones@.update(index as int, m)
    &&& e2 == Escrow { milestones: e2.milestones, status, ..e }
    &&& settings_unchanged(a, b)
    &&& books_unchanged(a, b)
}

/// Moving an unsettled milestone to another unsettled status, while its
/// escrow stays in progress or disputed, keeps the ledger well formed.
proof fn lemma_wf_milestone_change(
    a: &SecureFlow,
    b: &SecureFlow,
    id: u64,
    index: u64,
    m: Milestone,
    status: EscrowStatus,
)
    requires
        a.wf(),
        a.has_escrow(id),
        index < a.escrow(id).milestones@.len(),
        milestone_updated(a, b, id, index, m, status),
        m.amount == a.escrow(id).milestones@[index as int].amount,
        !is_settled(a.escrow(id).milestones@[index as int].status),
        !is_settled(m.status),
        a.escrow(id).status is InProgress || a.escrow(id).status is Disputed,
        status is InProgress || status is Disputed,
    ensures
        b.wf(),
        milestones_evolve(a, b) <== milestone_step(
            a.escrow(id).milestones@[index as int].status,
            m.status,
        ),
{
    let i = id - 1;
    let e = a.escrow(id);
    let e2 = b.escrows@[i];
    assert(escrow_wf(e, a.config));
    lemma_sums_update(e.milestones@, index as int, m);
    assert(forall|k: int| 0 <= k < e2.milestones@.len() ==> #[trigger] e2.milestones@[k].amount > 0);
    assert(escrow_wf(e2, b.config));
    assert forall|x: Address| #[trigger] b.reserve(x) == outstanding(b.escrows@, x) by {
        assert(a.reserve(x) == outstanding(a.escrows@, x));
        lemma_outstanding_update(a.escrows@, i, e2, x);
    }
}

impl SecureFlow {
    /// Why `approve_milestone` refuses, if it does.
    pub open spec fn approve_error(&self, caller: Address, id: u64, index: u64) -> Option<Error> {
        let e = self.escrow(id);
        let m = e.milestones@[index as int];
        let (pb, pd) = reward_points(self, e, m.amount, true);
        if self.paused {
            Some(Error::Paused)
        } else if !self.has_escrow(id) {
            Some(Error::InvalidEscrow)
        } else if caller != e.depositor {
            Some(Error::Unauthorized)
        } else if !(e.status is InProgress) {
            Some(Error::InvalidStatus)
        } else if index >= e.milestones@.len() {
            Some(Error::MilestoneNotFound)
        } else if !(m.status is Submitted) {
            Some(Error::InvalidStatus)
        } else if !self.rewards_fit(
            e.beneficiary,
            e.depositor,
            pb,
            pd,
            e.paid_amount + m.amount == e.total_amount,
        ) {
            Some(Error::ArithmeticOverflow)
        } else {
            None
        }
    }

    /// The depositor accepts a submitted milestone: its amount leaves the
    /// reserve and is paid to the beneficiary, and the escrow is released
    /// once everything is paid.  Rewards follow [`reward_points`]; completion
    /// also counts one completed escrow for each party.
    pub fn approve_milestone(&mut self, caller: Address, now: u64, escrow_id: u64, milestone_index: u64)
        -> (r: Result<Transfer, Error>)
        requires
            old(self).wf(),
        ensures
            final(self).wf(),
            milestones_evolve(old(self), final(self)),
            match r {
                Err(err) => old(self).approve_error(caller, escrow_id, milestone_index) == Some(err)
                    && *final(self) == *old(self),
                Ok(t) => {
                    let i = escrow_id - 1;
                    let e = old(self).escrow(escrow_id);
                    let m = e.milestones@[milestone_index as int];
                    let paid = (e.paid_amount + m.amount) as u128;
                    let completes = paid == e.total_amount;
                    let (pb, pd) = reward_points(old(self), e, m.amount, true);
                    let e2 = final(self).escrows@[i];
                    &&& old(self).approve_error(caller, escrow_id, milestone_index) is None
                    &&& t == Transfer::Out { asset: e.token, to: e.beneficiary, amount: m.amount }
                    &&& final(self).escrows@ == old(self).escrows@.update(i, e2)
                    &&& e2.milestones@ == e.milestones@.update(
                        milestone_index as int,
                        Milestone { status: MilestoneStatus::Approved, approved_at: now, ..m },
                    )
                    &&& e2 == Escrow {
                        milestones: e2.milestones,
                        paid_amount: paid,
                        status: if completes { EscrowStatus::Released } else { e.status },
                        ..e
                    }
                    &&& final(self).escrowed_amount@ == old(self).escrowed_amount@.insert(
                        e.token,
                        (old(self).reserve(e.token) - m.amount) as u128,
                    )
                    &&& final(self).reputation@ == credit(
                        credit(old(self).reputation@, e.beneficiary, pb),
                        e.depositor,
                        pd,
                    )
                    &&& final(self).completed_escrows@ == (if completes {
                        bump(bump(old(self).completed_escrows@, e.beneficiary), e.depositor)
                    } else {
                        old(self).completed_escrows@
                    })
                    &&& settings_unchanged(old(self), final(self))
                    &&& final(self).total_fees_by_token@ == old(self).total_fees_by_token@
                    &&& final(self).user_escrows@ == old(self).user_escrows@
                },
            },
    {
        if let Err(err) = self.when_not_paused() {
            return Err(err);
        }
        let i = match self.escrow_index(escrow_id) {
            Ok(i) => i,
            Err(err) => return Err(err),
        };
        let ghost e = self.escrows@[i as int];
        if caller != self.escrows[i].depositor {
            return Err(Error::Unauthorized);
        }
        if self.escrows[i].status != EscrowStatus::InProgress {
            return Err(Error::InvalidStatus);
        }
        if milestone_index as u128 >= self.escrows[i].milestones.len() as u128 {
            return Err(Error::MilestoneNotFound);
        }
        let j = milestone_index as usize;
        if self.escrows[i].milestones[j].status != MilestoneStatus::Submitted {
            return Err(Error::InvalidStatus);
        }
        let ghost m = e.milestones@[j as int];
        let amount = self.escrows[i].milestones[j].amount;
        let token = self.escrows[i].token;
        let beneficiary = self.escrows[i].beneficiary;
        let depositor = self.escrows[i].depositor;
        let total = self.escrows[i].total_amount;
        let paid = self.escrows[i].paid_amount;
        proof {
            assert(escrow_wf(e, self.config));
            let m2 = Milestone { status: MilestoneStatus::Approved, approved_at: now, ..m };
            lemma_sums_update(e.milestones@, j as int, m2);
            lemma_settled_le_sum(e.milestones@.update(j as int, m2));
            lemma_paid_le_total(self);
            lemma_outstanding_covers(self.escrows@, i as int, token);
            assert(self.reserve(token) == outstanding(self.escrows@, token));
            assert(held_by(e, token) == total - paid);
        }
        let new_paid = paid + amount;
        let completes = new_paid == total;
        let eligible = total >= self.config.min_rep_eligible_escrow_value;
        let pm: u128 = if eligible { self.config.reputation_per_milestone } else { 0 };
        let pe: u128 = if eligible && completes { self.config.reputation_per_escrow } else { 0 };
        let pb = pm + pe;
        if !self.check_rewards(beneficiary, depositor, pb, pe, completes) {
            return Err(Error::ArithmeticOverflow);
        }
        let reserve = self.escrowed_amount.get_or(token, 0);
        // The reserve is committed, and the status settled, before the payout.
        self.escrows[i].milestones[j].status = MilestoneStatus::Approved;
        self.escrows[i].milestones[j].approved_at = now;
        self.escrows[i].paid_amount = new_paid;
        if completes {
            self.escrows[i].status = EscrowStatus::Released;
        }
        self.escrowed_amount.set(token, reserve - amount);
        self.apply_rewards(beneficiary, depositor, pb, pe, completes);
        proof {
            let e2 = self.escrows@[i as int];
            let m2 = Milestone { status: MilestoneStatus::Approved, approved_at: now, ..m };
            assert(e2.milestones@ =~= e.milestones@.update(j as int, m2));
            assert(e2.applications == e.applications);
            assert(forall|k: int| 0 <= k < e2.milestones@.len() ==> #[trigger] e2.milestones@[k].amount > 0);
            assert(escrow_wf(e2, self.config));
            assert(self.escrows@ =~= old(self).escrows@.update(i as int, e2));
            assert(held_by(e2, token) == held_by(e, token) - amount);
            assert forall|a: Address| #[trigger] self.reserve(a) == outstanding(self.escrows@, a) by {
                assert(old(self).reserve(a) == outstanding(old(self).escrows@, a));
                lemma_outstanding_update(old(self).escrows@, i as int, e2, a);
            }
        }
        Ok(Transfer::Out { asset: token, to: beneficiary, amount })
    }
}


impl SecureFlow {
    /// Why a milestone operation refuses, if it does, up to the check of the
    /// milestone's own status: `by_beneficiary` says which party may call.
    pub open spec fn engine_error(&self, caller: Address, id: u64, index: u64, by_beneficiary: bool) -> Option<Error> {
        let e = self.escrow(id);
        if self.paused {
            Some(Error::Paused)
        } else if !self.has_escrow(id) {
            Some(Error::InvalidEscrow)
        } else if caller != (if by_beneficiary { e.beneficiary } else { e.depositor }) {
            Some(Error::Unauthorized)
        } else if !(e.status is InProgress) {
            Some(Error::InvalidStatus)
        } else if index >= e.milestones@.len() {
            Some(Error::MilestoneNotFound)
        } else {
            None
        }
    }

    /// The common checks of the milestone operations: on success, the
    /// positions of the escrow and of the milestone.
    fn engine_check(&self, caller: Address, id: u64, index: u64, by_beneficiary: bool) -> (r: Result<(usize, usize), Error>)
        ensures
            match r {
                Ok((i, j)) => self.engine_error(caller, id, index, by_beneficiary) is None
                    && i as int == id - 1 && j as int == index,
                Err(err) => self.engine_error(caller, id, index, by_beneficiary) == Some(err),
            },
    {
        if let Err(err) = self.when_not_paused() {
            return Err(err);
        }
        let i = match self.escrow_index(id) {
            Ok(i) => i,
            Err(err) => return Err(err),
        };
        let party = if by_beneficiary { self.escrows[i].beneficiary } else { self.escrows[i].depositor };
        if caller != party {
            return Err(Error::Unauthorized);
        }
        if self.escrows[i].status != EscrowStatus::InProgress {
            return Err(Error::InvalidStatus);
        }
        if index as u128 >= self.escrows[i].milestones.len() as u128 {
            return Err(Error::MilestoneNotFound);
        }
        Ok((i, index as usize))
    }

    /// Why `submit_milestone` refuses, if it does.
    pub open spec fn submit_error(&self, caller: Address, id: u64, index: u64) -> Option<Error> {
        match self.engine_error(caller, id, index, true) {
            Some(err) => Some(err),
            None => if !(self.escrow(id).milestones@[index as int].status is NotStarted) {
                Some(Error::AlreadySubmitted)
            } else {
                None
            },
        }
    }

    /// The beneficiary submits a milestone that was not started; a nonempty
    /// `description` replaces the milestone's description.
    pub fn submit_milestone(
        &mut self,
        caller: Address,
        now: u64,
        escrow_id: u64,
        milestone_index: u64,
        description: String,
    ) -> (r: Result<(), Error>)
        requires
            old(self).wf(),
        ensures
            final(self).wf(),
            milestones_evolve(old(self), final(self)),
            match r {
                Err(err) => old(self).submit_error(caller, escrow_id, milestone_index) == Some(err)
                    && *final(self) == *old(self),
                Ok(()) => {
                    let m = old(self).escrow(escrow_id).milestones@[milestone_index as int];
                    &&& old(self).submit_error(caller, escrow_id, milestone_index) is None
                    &&& milestone_updated(
                        old(self),
                        final(self),
                        escrow_id,
                        milestone_index,
                        Milestone {
                            status: MilestoneStatus::Submitted,
                            submitted_at: now,
                            description: if description@.len() == 0 {
                                m.description
                            } else {
                                description
                            },
                            ..m
                        },
                        EscrowStatus::InProgress,
                    )
                },
            },
    {
        let (i, j) = match self.engine_check(caller, escrow_id, milestone_index, true) {
            Ok(p) => p,
            Err(err) => return Err(err),
        };
        if self.escrows[i].milestones[j].status != MilestoneStatus::NotStarted {
            return Err(Error::AlreadySubmitted);
        }
        self.escrows[i].milestones[j].status = MilestoneStatus::Submitted;
        self.escrows[i].milestones[j].submitted_at = now;
        if !description.as_str().is_empty() {
            self.escrows[i].milestones[j].description = description;
        }
        proof {
            let e2 = self.escrows@[i as int];
            assert(e2.milestones@ =~= old(self).escrow(escrow_id).milestones@.update(j as int, e2.milestones@[j as int]));
            assert(self.escrows@ =~= old(self).escrows@.update(i as int, e2));
            lemma_wf_milestone_change(old(self), self, escrow_id, milestone_index, e2.milestones@[j as int], EscrowStatus::InProgress);
        }
        Ok(())
    }

    /// Why `reject_milestone` refuses, if it does.
    pub open spec fn reject_error(&self, caller: Address, id: u64, index: u64) -> Option<Error> {
        match self.engine_error(caller, id, index, false) {
            Some(err) => Some(err),
            None => if !(self.escrow(id).milestones@[index as int].status is Submitted) {
                Some(Error::InvalidStatus)
            } else {
                None
            },
        }
    }

    /// The depositor rejects a submitted milestone with a reason; no funds move.
    pub fn reject_milestone(
        &mut self,
        caller: Address,
        now: u64,
        escrow_id: u64,
        milestone_index: u64,
        reason: String,
    ) -> (r: Result<(), Error>)
        requires
            old(self).wf(),
        ensures
            final(self).wf(),
            milestones_evolve(old(self), final(self)),
            match r {
                Err(err) => old(self).reject_error(caller, escrow_id, milestone_index) == Some(err)
                    && *final(self) == *old(self),
                Ok(()) => {
                    let m = old(self).escrow(escrow_id).milestones@[milestone_index as int];
                    &&& old(self).reject_error(caller, escrow_id, milestone_index) is None
                    &&& milestone_updated(
                        old(self),
                        final(self),
                        escrow_id,
                        milestone_index,
                        Milestone {
                            status: MilestoneStatus::Rejected,
                            disputed_at: now,
                            disputed_by: caller,
                            dispute_reason: reason,
                            ..m
                        },
                        EscrowStatus::InProgress,
                    )
                },
            },
    {
        let (i, j) = match self.engine_check(caller, escrow_id, milestone_index, false) {
            Ok(p) => p,
            Err(err) => return Err(err),
        };
        if self.escrows[i].milestones[j].status != MilestoneStatus::Submitted {
            return Err(Error::InvalidStatus);
        }
        self.escrows[i].milestones[j].status = MilestoneStatus::Rejected;
        self.escrows[i].milestones[j].disputed_at = now;
        self.escrows[i].milestones[j].disputed_by = caller;
        self.escrows[i].milestones[j].dispute_reason = reason;
        proof {
            let e2 = self.escrows@[i as int];
            assert(e2.milestones@ =~= old(self).escrow(escrow_id).milestones@.update(j as int, e2.milestones@[j as int]));
            assert(self.escrows@ =~= old(self).escrows@.update(i as int, e2));
            lemma_wf_milestone_change(old(self), self, escrow_id, milestone_index, e2.milestones@[j as int], EscrowStatus::InProgress);
        }
        Ok(())
    }

    /// Why `resubmit_milestone` refuses, if it does.
    pub open spec fn resubmit_error(&self, caller: Address, id: u64, index: u64) -> Option<Error> {
        match self.engine_error(caller, id, index, true) {
            Some(err) => Some(err),
            None => if !(self.escrow(id).milestones@[index as int].status is Rejected) {
                Some(Error::InvalidStatus)
            } else {
                None
            },
        }
    }

    /// The beneficiary submits a rejected milestone again; a nonempty
    /// `description` replaces the milestone's description.
    pub fn resubmit_milestone(
        &mut self,
        caller: Address,
        now: u64,
        escrow_id: u64,
        milestone_index: u64,
        description: String,
    ) -> (r: Result<(), Error>)
        requires
            old(self).wf(),
        ensures
            final(self).wf(),
            milestones_evolve(old(self), final(self)),
            match r {
                Err(err) => old(self).resubmit_error(caller, escrow_id, milestone_index) == Some(err)
                    && *final(self) == *old(self),
                Ok(()) => {
                    let m = old(self).escrow(escrow_id).milestones@[milestone_index as int];
                    &&& old(self).resubmit_error(caller, escrow_id, milestone_index) is None
                    &&& milestone_updated(
                        old(self),
                        final(self),
                        escrow_id,
                        milestone_index,
                        Milestone {
                            status: MilestoneStatus::Submitted,
                            submitted_at: now,
                            description: if description@.len() == 0 {
                                m.description
                            } else {
                                description
                            },
                            ..m
                        },
                        EscrowStatus::InProgress,
                    )
                },
            },
    {
        let (i, j) = match self.engine_check(caller, escrow_id, milestone_index, true) {
            Ok(p) => p,
            Err(err) => return Err(err),
        };
        if self.escrows[i].milestones[j].status != MilestoneStatus::Rejected {
            return Err(Error::InvalidStatus);
        }
        self.escrows[i].milestones[j].status = MilestoneStatus::Submitted;
        self.escrows[i].milestones[j].submitted_at = now;
        if !description.as_str().is_empty() {
            self.escrows[i].milestones[j].description = description;
        }
        proof {
            let e2 = self.escrows@[i as int];
            assert(e2.milestones@ =~= old(self).escrow(escrow_id).milestones@.update(j as int, e2.milestones@[j as int]));
            assert(self.escrows@ =~= old(self).escrows@.update(i as int, e2));
            lemma_wf_milestone_change(old(self), self, escrow_id, milestone_index, e2.milestones@[j as int], EscrowStatus::InProgress);
        }
        Ok(())
    }
}


/// The payouts of a dispute resolution: `to_beneficiary` to `b` and
/// `to_depositor` to `d`, each only where it is nonzero.
pub open spec fn dispute_payouts(asset: Address, b: Address, d: Address, to_beneficiary: u128, to_depositor: u128) -> Seq<Transfer> {
    let first = if to_beneficiary > 0 {
        seq![Transfer::Out { asset, to: b, amount: to_beneficiary }]
    } else {
        Seq::<Transfer>::empty()
    };
    if to_depositor > 0 {
        first.push(Transfer::Out { asset, to: d, amount: to_depositor })
    } else {
        first
    }
}

/// The sum of the amounts that a list of transfers moves.
pub open spec fn transfers_total(ts: Seq<Transfer>) -> int
    decreases ts.len(),
{
    if ts.len() == 0 {
        0
    } else {
        transfers_total(ts.drop_last()) + match ts.last() {
            Transfer::In { amount, .. } => amount,
            Transfer::Out { amount, .. } => amount,
        }
    }
}

impl SecureFlow {
    /// Why `dispute_milestone` refuses, if it does.
    pub open spec fn dispute_error(&self, caller: Address, now: u64, id: u64, index: u64) -> Option<Error> {
        let e = self.escrow(id);
        let m = e.milestones@[index as int];
        if self.paused {
            Some(Error::Paused)
        } else if !self.has_escrow(id) {
            Some(Error::InvalidEscrow)
        } else if caller != e.depositor {
            Some(Error::Unauthorized)
        } else if index >= e.milestones@.len() {
            Some(Error::MilestoneNotFound)
        } else if !(m.status is Submitted) {
            Some(Error::InvalidStatus)
        } else if !(e.status is InProgress || e.status is Disputed) {
            Some(Error::InvalidStatus)
        } else if now > m.submitted_at + self.config.dispute_period {
            Some(Error::DisputePeriodExpired)
        } else {
            None
        }
    }

    /// The depositor disputes a submitted milestone within the dispute
    /// period after its submission; the whole escrow becomes disputed.
    pub fn dispute_milestone(
        &mut self,
        caller: Address,
        now: u64,
        escrow_id: u64,
        milestone_index: u64,
        reason: String,
    ) -> (r: Result<(), Error>)
        requires
            old(self).wf(),
        ensures
            final(self).wf(),
            milestones_evolve(old(self), final(self)),
            match r {
                Err(err) => old(self).dispute_error(caller, now, escrow_id, milestone_index) == Some(err)
                    && *final(self) == *old(self),
                Ok(()) => {
                    let m = old(self).escrow(escrow_id).milestones@[milestone_index as int];
                    &&& old(self).dispute_error(caller, now, escrow_id, milestone_index) is None
                    &&& milestone_updated(
                        old(self),
                        final(self),
                        escrow_id,
                        milestone_index,
                        Milestone {
                            status: MilestoneStatus::Disputed,
                            disputed_at: now,
                            disputed_by: caller,
                            dispute_reason: reason,
                            ..m
                        },
                        EscrowStatus::Disputed,
                    )
                },
            },
    {
        if let Err(err) = self.when_not_paused() {
            return Err(err);
        }
        let i = match self.escrow_index(escrow_id) {
            Ok(i) => i,
            Err(err) => return Err(err),
        };
        if caller != self.escrows[i].depositor {
            return Err(Error::Unauthorized);
        }
        if milestone_index as u128 >= self.escrows[i].milestones.len() as u128 {
            return Err(Error::MilestoneNotFound);
        }
        let j = milestone_index as usize;
        if self.escrows[i].milestones[j].status != MilestoneStatus::Submitted {
            return Err(Error::InvalidStatus);
        }
        let status = self.escrows[i].status;
        if status != EscrowStatus::InProgress && status != EscrowStatus::Disputed {
            return Err(Error::InvalidStatus);
        }
        let submitted_at = self.escrows[i].milestones[j].submitted_at;
        if now > submitted_at && now - submitted_at > self.config.dispute_period {
            return Err(Error::DisputePeriodExpired);
        }
        self.escrows[i].milestones[j].status = MilestoneStatus::Disputed;
        self.escrows[i].milestones[j].disputed_at = now;
        self.escrows[i].milestones[j].disputed_by = caller;
        self.escrows[i].milestones[j].dispute_reason = reason;
        self.escrows[i].status = EscrowStatus::Disputed;
        proof {
            let e2 = self.escrows@[i as int];
            assert(e2.milestones@ =~= old(self).escrow(escrow_id).milestones@.update(j as int, e2.milestones@[j as int]));
            assert(self.escrows@ =~= old(self).escrows@.update(i as int, e2));
            lemma_wf_milestone_change(old(self), self, escrow_id, milestone_index, e2.milestones@[j as int], EscrowStatus::Disputed);
        }
        Ok(())
    }

    /// Why `resolve_dispute` refuses, if it does.
    pub open spec fn resolve_error(&self, caller: Address, id: u64, index: u64, beneficiary_amount: u128) -> Option<Error> {
        let e = self.escrow(id);
        let m = e.milestones@[index as int];
        let (pb, pd) = reward_points(self, e, m.amount, false);
        if self.paused {
            Some(Error::Paused)
        } else if !self.has_escrow(id) {
            Some(Error::InvalidEscrow)
        } else if !(caller == e.depositor || caller == e.beneficiary || e.arbiters@.contains(caller)) {
            Some(Error::Unauthorized)
        } else if !(e.status is Disputed) {
            Some(Error::InvalidStatus)
        } else if index >= e.milestones@.len() {
            Some(Error::MilestoneNotFound)
        } else if !(m.status is Disputed) {
            Some(Error::InvalidStatus)
        } else if beneficiary_amount > m.amount {
            Some(Error::InvalidAmount)
        } else if !self.rewards_fit(
            e.beneficiary,
            e.depositor,
            pb,
            pd,
            e.paid_amount + m.amount == e.total_amount,
        ) {
            Some(Error::ArithmeticOverflow)
        } else {
            None
        }
    }

    /// The depositor, the beneficiary or a registered arbiter splits a
    /// disputed milestone: `beneficiary_amount` goes to the beneficiary and
    /// the rest of the milestone back to the depositor.  The whole milestone
    /// leaves the reserve and counts as paid out; the escrow resumes, or is
    /// released when nothing is left outstanding, with the same completion
    /// rewards as an approval.
    pub fn resolve_dispute(
        &mut self,
        caller: Address,
        now: u64,
        escrow_id: u64,
        milestone_index: u64,
        beneficiary_amount: u128,
    ) -> (r: Result<Vec<Transfer>, Error>)
        requires
            old(self).wf(),
        ensures
            final(self).wf(),
            milestones_evolve(old(self), final(self)),
            match r {
                Err(err) => old(self).resolve_error(caller, escrow_id, milestone_index, beneficiary_amount)
                    == Some(err) && *final(self) == *old(self),
                Ok(ts) => {
                    let i = escrow_id - 1;
                    let e = old(self).escrow(escrow_id);
                    let m = e.milestones@[milestone_index as int];
                    let refund_amount = (m.amount - beneficiary_amount) as u128;
                    let paid = (e.paid_amount + m.amount) as u128;
                    let completes = paid == e.total_amount;
                    let (pb, pd) = reward_points(old(self), e, m.amount, false);
                    let e2 = final(self).escrows@[i];
                    &&& old(self).resolve_error(caller, escrow_id, milestone_index, beneficiary_amount) is None
                    &&& beneficiary_amount + refund_amount == m.amount
                    &&& ts@ == dispute_payouts(e.token, e.beneficiary, e.depositor, beneficiary_amount, refund_amount)
                    &&& transfers_total(ts@) == m.amount
                    &&& final(self).escrows@ == old(self).escrows@.update(i, e2)
                    &&& e2.milestones@ == e.milestones@.update(
                        milestone_index as int,
                        Milestone { status: MilestoneStatus::Resolved, approved_at: now, ..m },
                    )
                    &&& e2 == Escrow {
                        milestones: e2.milestones,
                        paid_amount: paid,
                        status: if completes { EscrowStatus::Released } else { EscrowStatus::InProgress },
                        ..e
                    }
                    &&& final(self).escrowed_amount@ == old(self).escrowed_amount@.insert(
                        e.token,
                        (old(self).reserve(e.token) - m.amount) as u128,
                    )
                    &&& final(self).reputation@ == credit(
                        credit(old(self).reputation@, e.beneficiary, pb),
                        e.depositor,
                        pd,
                    )
                    &&& final(self).completed_escrows@ == (if completes {
                        bump(bump(old(self).completed_escrows@, e.beneficiary), e.depositor)
                    } else {
                        old(self).completed_escrows@
                    })
                    &&& settings_unchanged(old(self), final(self))
                    &&& final(self).total_fees_by_token@ == old(self).total_fees_by_token@
                    &&& final(self).user_escrows@ == old(self).user_escrows@
                },
            },
    {
        if let Err(err) = self.when_not_paused() {
            return Err(err);
        }
        let i = match self.escrow_index(escrow_id) {
            Ok(i) => i,
            Err(err) => return Err(err),
        };
        let ghost e = self.escrows@[i as int];
        let beneficiary = self.escrows[i].beneficiary;
        let depositor = self.escrows[i].depositor;
        if caller != depositor && caller != beneficiary && !self.is_arbiter_for_escrow_internal(escrow_id, caller) {
            return Err(Error::Unauthorized);
        }
        if self.escrows[i].status != EscrowStatus::Disputed {
            return Err(Error::InvalidStatus);
        }
        if milestone_index as u128 >= self.escrows[i].milestones.len() as u128 {
            return Err(Error::MilestoneNotFound);
        }
        let j = milestone_index as usize;
        if self.escrows[i].milestones[j].status != MilestoneStatus::Disputed {
            return Err(Error::InvalidStatus);
        }
        let amount = self.escrows[i].milestones[j].amount;
        if beneficiary_amount > amount {
            return Err(Error::InvalidAmount);
        }
        let refund_amount = amount - beneficiary_amount;
        let ghost m = e.milestones@[j as int];
        let token = self.escrows[i].token;
        let total = self.escrows[i].total_amount;
        let paid = self.escrows[i].paid_amount;
        proof {
            assert(escrow_wf(e, self.config));
            let m2 = Milestone { status: MilestoneStatus::Resolved, approved_at: now, ..m };
            lemma_sums_update(e.milestones@, j as int, m2);
            lemma_settled_le_sum(e.milestones@.update(j as int, m2));
            lemma_paid_le_total(self);
            lemma_outstanding_covers(self.escrows@, i as int, token);
            assert(self.reserve(token) == outstanding(self.escrows@, token));
            assert(held_by(e, token) == total - paid);
        }
        let new_paid = paid + amount;
        let completes = new_paid == total;
        let eligible = total >= self.config.min_rep_eligible_escrow_value;
        let pe: u128 = if eligible && completes { self.config.reputation_per_escrow } else { 0 };
        if !self.check_rewards(beneficiary, depositor, pe, pe, completes) {
            return Err(Error::ArithmeticOverflow);
        }
        let reserve = self.escrowed_amount.get_or(token, 0);
        // The reserve is committed, and the status settled, before any payout.
        self.escrows[i].milestones[j].status = MilestoneStatus::Resolved;
        self.escrows[i].milestones[j].approved_at = now;
        self.escrows[i].paid_amount = new_paid;
        if completes {
            self.escrows[i].status = EscrowStatus::Released;
        } else {
            self.escrows[i].status = EscrowStatus::InProgress;
        }
        self.escrowed_amount.set(token, reserve - amount);
        self.apply_rewards(beneficiary, depositor, pe, pe, completes);
        let mut payouts: Vec<Transfer> = Vec::new();
        if beneficiary_amount > 0 {
            payouts.push(Transfer::Out { asset: token, to: beneficiary, amount: beneficiary_amount });
        }
        if refund_amount > 0 {
            payouts.push(Transfer::Out { asset: token, to: depositor, amount: refund_amount });
        }
        proof {
            let e2 = self.escrows@[i as int];
            let m2 = Milestone { status: MilestoneStatus::Resolved, approved_at: now, ..m };
            assert(e2.milestones@ =~= e.milestones@.update(j as int, m2));
            assert(forall|k: int| 0 <= k < e2.milestones@.len() ==> #[trigger] e2.milestones@[k].amount > 0);
            assert(escrow_wf(e2, self.config));
            assert(self.escrows@ =~= old(self).escrows@.update(i as int, e2));
            assert(held_by(e2, token) == held_by(e, token) - amount);
            assert forall|a: Address| #[trigger] self.reserve(a) == outstanding(self.escrows@, a) by {
                assert(old(self).reserve(a) == outstanding(old(self).escrows@, a));
                lemma_outstanding_update(old(self).escrows@, i as int, e2, a);
            }
            let ts = payouts@;
            assert(ts =~= dispute_payouts(token, beneficiary, depositor, beneficiary_amount, refund_amount));
            reveal_with_fuel(transfers_total, 3);
            if ts.len() == 2 {
                assert(ts.drop_last().drop_last() =~= Seq::<Transfer>::empty());
                assert(transfers_total(ts.drop_last()) == ts[0]->Out_amount);
            } else if ts.len() == 1 {
                assert(ts.drop_last() =~= Seq::<Transfer>::empty());
            }
        }
        Ok(payouts)
    }
}

} // verus!
