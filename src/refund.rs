//! Work start, refunds, expiry and deadline extension.

use vstd::prelude::*;
use crate::errors::Error;
use crate::ledger::{milestones_evolve, books_unchanged, escrow_wf, lemma_paid_le_total, lemma_wf_replace, settings_unchanged, SecureFlow};
use crate::model::{lemma_outstanding_covers, outstanding, Escrow, Transfer};
use crate::table::value_or;
use crate::types::{Address, EscrowStatus};

verus! {

impl SecureFlow {
    /// Why `start_work` refuses, if it does.
    pub open spec fn start_work_error(&self, caller: Address, id: u64) -> Option<Error> {
        let e = self.escrow(id);
        if self.paused {
            Some(Error::Paused)
        } else if !self.has_escrow(id) {
            Some(Error::InvalidEscrow)
        } else if caller != e.beneficiary || e.is_open_job {
            Some(Error::Unauthorized)
        } else if !(e.status is Pending) {
            Some(Error::InvalidStatus)
        } else if e.work_started {
            Some(Error::WorkNotStarted)
        } else if value_or(self.total_fees_by_token@, e.token, 0u128) + e.platform_fee > u128::MAX {
            Some(Error::ArithmeticOverflow)
        } else {
            None
        }
    }

    /// The named beneficiary starts work on a pending escrow, once: the
    /// escrow moves to `InProgress` and its platform fee becomes withdrawable.
    pub fn start_work(&mut self, caller: Address, escrow_id: u64) -> (r: Result<(), Error>)
        requires
            old(self).wf(),
        ensures
            final(self).wf(),
            milestones_evolve(old(self), final(self)),
            match r {
                Err(err) => old(self).start_work_error(caller, escrow_id) == Some(err)
                    && *final(self) == *old(self),
                Ok(()) => {
                    let e = old(self).escrow(escrow_id);
                    &&& old(self).start_work_error(caller, escrow_id) is None
                    &&& final(self).escrows@ == old(self).escrows@.update(
                        escrow_id - 1,
                        Escrow { status: EscrowStatus::InProgress, work_started: true, ..e },
                    )
                    &&& final(self).total_fees_by_token@ == (if e.platform_fee > 0 {
                        old(self).total_fees_by_token@.insert(
                            e.token,
                            (value_or(old(self).total_fees_by_token@, e.token, 0u128) + e.platform_fee) as u128,
                        )
                    } else {
                        old(self).total_fees_by_token@
                    })
                    &&& settings_unchanged(old(self), final(self))
                    &&& final(self).escrowed_amount@ == old(self).escrowed_amount@
                    &&& final(self).reputation@ == old(self).reputation@
                    &&& final(self).completed_escrows@ == old(self).completed_escrows@
                    &&& final(self).user_escrows@ == old(self).user_escrows@
                },
            },
    {
        if let Err(err) = self.when_not_paused() {
            return Err(err);
        }
        let i = match self.escrow_index(escrow_id) {
            Ok(i) => i,
            Err(err) => return Err(err),
        };
        if caller != self.escrows[i].beneficiary || self.escrows[i].is_open_job {
            return Err(Error::Unauthorized);
        }
        if self.escrows[i].status != EscrowStatus::Pending {
            return Err(Error::InvalidStatus);
        }
        if self.escrows[i].work_started {
            return Err(Error::WorkNotStarted);
        }
        let token = self.escrows[i].token;
        let fee = self.escrows[i].platform_fee;
        let accrued = self.total_fees_by_token.get_or(token, 0);
        if accrued > u128::MAX - fee {
            return Err(Error::ArithmeticOverflow);
        }
        self.escrows[i].status = EscrowStatus::InProgress;
        self.escrows[i].work_started = true;
        if fee > 0 {
            self.total_fees_by_token.set(token, accrued + fee);
        }
        proof {
            let e = old(self).escrows@[i as int];
            let e2 = self.escrows@[i as int];
            assert(escrow_wf(e, self.config));
            assert(escrow_wf(e2, self.config));
            assert(self.escrows@ =~= old(self).escrows@.update(i as int, e2));
            lemma_wf_replace(old(self), self, i as int, e2);
        }
        Ok(())
    }

    /// Why `refund_escrow` refuses, if it does.
    pub open spec fn refund_error(&self, caller: Address, now: u64, id: u64) -> Option<Error> {
        let e = self.escrow(id);
        if self.paused {
            Some(Error::Paused)
        } else if !self.has_escrow(id) {
            Some(Error::InvalidEscrow)
        } else if caller != e.depositor {
            Some(Error::Unauthorized)
        } else if e.status.is_terminal() || e.total_amount == e.paid_amount {
            Some(Error::NothingToRefund)
        } else if !(e.status is Pending) {
            Some(Error::InvalidStatus)
        } else if e.work_started {
            Some(Error::WorkNotStarted)
        } else if now >= e.deadline {
            Some(Error::DeadlineNotPassed)
        } else {
            None
        }
    }

    /// The depositor takes back a pending escrow on which work never started,
    /// strictly before its deadline: the unpaid balance leaves the reserve
    /// and is paid back, and the escrow is `Refunded`.  A closed escrow has
    /// nothing left to refund.
    pub fn refund_escrow(&mut self, caller: Address, now: u64, escrow_id: u64) -> (r: Result<Transfer, Error>)
        requires
            old(self).wf(),
        ensures
            final(self).wf(),
            milestones_evolve(old(self), final(self)),
            match r {
                Err(err) => old(self).refund_error(caller, now, escrow_id) == Some(err)
                    && *final(self) == *old(self),
                Ok(t) => {
                    let e = old(self).escrow(escrow_id);
                    let amount = (e.total_amount - e.paid_amount) as u128;
                    &&& old(self).refund_error(caller, now, escrow_id) is None
                    &&& t == Transfer::Out { asset: e.token, to: e.depositor, amount }
                    &&& final(self).escrows@ == old(self).escrows@.update(
                        escrow_id - 1,
                        Escrow { status: EscrowStatus::Refunded, ..e },
                    )
                    &&& final(self).escrowed_amount@ == old(self).escrowed_amount@.insert(
                        e.token,
                        (old(self).reserve(e.token) - amount) as u128,
                    )
                    &&& settings_unchanged(old(self), final(self))
                    &&& final(self).total_fees_by_token@ == old(self).total_fees_by_token@
                    &&& final(self).reputation@ == old(self).reputation@
                    &&& final(self).completed_escrows@ == old(self).completed_escrows@
                    &&& final(self).user_escrows@ == old(self).user_escrows@
                },
            },
    {
        if let Err(err) = self.when_not_paused() {
            return Err(err);
        }
        let i = match self.escrow_index(escrow_id) {
            Ok(i) => i,
            Err(err) => return Err(err),
        };
        if caller != self.escrows[i].depositor {
            return Err(Error::Unauthorized);
        }
        if self.escrows[i].status.is_terminal() || self.escrows[i].total_amount == self.escrows[i].paid_amount {
            return Err(Error::NothingToRefund);
        }
        if self.escrows[i].status != EscrowStatus::Pending {
            return Err(Error::InvalidStatus);
        }
        if self.escrows[i].work_started {
            return Err(Error::WorkNotStarted);
        }
        if now >= self.escrows[i].deadline {
            return Err(Error::DeadlineNotPassed);
        }
        self.close_with_refund(escrow_id, i, EscrowStatus::Refunded)
    }

    /// Why `emergency_refund_after_deadline` refuses, if it does.
    pub open spec fn emergency_refund_error(&self, caller: Address, now: u64, id: u64) -> Option<Error> {
        let e = self.escrow(id);
        if self.paused {
            Some(Error::Paused)
        } else if !self.has_escrow(id) {
            Some(Error::InvalidEscrow)
        } else if caller != e.depositor {
            Some(Error::Unauthorized)
        } else if now <= e.deadline + self.config.emergency_refund_delay {
            Some(Error::EmergencyPeriodNotReached)
        } else if e.status.is_terminal() {
            Some(Error::InvalidStatus)
        } else if e.total_amount == e.paid_amount {
            Some(Error::NothingToRefund)
        } else {
            None
        }
    }

    /// The depositor's safety valve: once the emergency grace period after
    /// the deadline has passed, a live escrow in any state, a disputed one
    /// included, is closed as `Expired` and its unpaid balance leaves the
    /// reserve and is paid back.
    pub fn emergency_refund_after_deadline(&mut self, caller: Address, now: u64, escrow_id: u64)
        -> (r: Result<Transfer, Error>)
        requires
            old(self).wf(),
        ensures
            final(self).wf(),
            milestones_evolve(old(self), final(self)),
            match r {
                Err(err) => old(self).emergency_refund_error(caller, now, escrow_id) == Some(err)
                    && *final(self) == *old(self),
                Ok(t) => {
                    let e = old(self).escrow(escrow_id);
                    let amount = (e.total_amount - e.paid_amount) as u128;
                    &&& old(self).emergency_refund_error(caller, now, escrow_id) is None
                    &&& t == Transfer::Out { asset: e.token, to: e.depositor, amount }
                    &&& final(self).escrows@ == old(self).escrows@.update(
                        escrow_id - 1,
                        Escrow { status: EscrowStatus::Expired, ..e },
                    )
                    &&& final(self).escrowed_amount@ == old(self).escrowed_amount@.insert(
                        e.token,
                        (old(self).reserve(e.token) - amount) as u128,
                    )
                    &&& settings_unchanged(old(self), final(self))
                    &&& final(self).total_fees_by_token@ == old(self).total_fees_by_token@
                    &&& final(self).reputation@ == old(self).reputation@
                    &&& final(self).completed_escrows@ == old(self).completed_escrows@
                    &&& final(self).user_escrows@ == old(self).user_escrows@
                },
            },
    {
        if let Err(err) = self.when_not_paused() {
            return Err(err);
        }
        let i = match self.escrow_index(escrow_id) {
            Ok(i) => i,
            Err(err) => return Err(err),
        };
        if caller != self.escrows[i].depositor {
            return Err(Error::Unauthorized);
        }
        let deadline = self.escrows[i].deadline;
        if now <= deadline || now - deadline <= self.config.emergency_refund_delay {
            return Err(Error::EmergencyPeriodNotReached);
        }
        if self.escrows[i].status.is_terminal() {
            return Err(Error::InvalidStatus);
        }
        self.close_with_refund(escrow_id, i, EscrowStatus::Expired)
    }

    /// Closes live escrow `id` with terminal status `status` and pays its
    /// unpaid balance back to the depositor.
    fn close_with_refund(&mut self, id: u64, i: usize, status: EscrowStatus) -> (r: Result<Transfer, Error>)
        requires
            old(self).wf(),
            old(self).has_escrow(id),
            i == id - 1,
            !old(self).escrow(id).status.is_terminal(),
            status.is_terminal() && !(status is Released),
        ensures
            final(self).wf(),
            match r {
                Err(err) => err == Error::NothingToRefund && old(self).escrow(id).total_amount
                    == old(self).escrow(id).paid_amount && *final(self) == *old(self),
                Ok(t) => {
                    let e = old(self).escrow(id);
                    let amount = (e.total_amount - e.paid_amount) as u128;
                    &&& e.total_amount != e.paid_amount
                    &&& t == Transfer::Out { asset: e.token, to: e.depositor, amount }
                    &&& final(self).escrows@ == old(self).escrows@.update(id - 1, Escrow { status, ..e })
                    &&& final(self).escrowed_amount@ == old(self).escrowed_amount@.insert(
                        e.token,
                        (old(self).reserve(e.token) - amount) as u128,
                    )
                    &&& settings_unchanged(old(self), final(self))
                    &&& final(self).total_fees_by_token@ == old(self).total_fees_by_token@
                    &&& final(self).reputation@ == old(self).reputation@
                    &&& final(self).completed_escrows@ == old(self).completed_escrows@
                    &&& final(self).user_escrows@ == old(self).user_escrows@
                },
            },
    {
        let total = self.escrows[i].total_amount;
        let paid = self.escrows[i].paid_amount;
        let token = self.escrows[i].token;
        let depositor = self.escrows[i].depositor;
        proof {
            lemma_paid_le_total(self);
            lemma_outstanding_covers(self.escrows@, i as int, token);
            assert(self.reserve(token) == outstanding(self.escrows@, token));
        }
        if total == paid {
            return Err(Error::NothingToRefund);
        }
        let amount = total - paid;
        let reserve = self.escrowed_amount.get_or(token, 0);
        // The reserve and the status are committed before the payout.
        self.escrows[i].status = status;
        self.escrowed_amount.set(token, reserve - amount);
        proof {
            let e = old(self).escrows@[i as int];
            let e2 = self.escrows@[i as int];
            assert(escrow_wf(e, self.config));
            assert(escrow_wf(e2, self.config));
            assert(self.escrows@ =~= old(self).escrows@.update(i as int, e2));
            lemma_wf_replace(old(self), self, i as int, e2);
        }
        Ok(Transfer::Out { asset: token, to: depositor, amount })
    }

    /// Why `extend_deadline` refuses, if it does.
    pub open spec fn extend_error(&self, caller: Address, id: u64, extra_seconds: u64) -> Option<Error> {
        let e = self.escrow(id);
        if self.paused {
            Some(Error::Paused)
        } else if !self.has_escrow(id) {
            Some(Error::InvalidEscrow)
        } else if caller != e.depositor {
            Some(Error::Unauthorized)
        } else if extra_seconds == 0 || extra_seconds > self.config.max_extension {
            Some(Error::InvalidDuration)
        } else if !(e.status is InProgress || e.status is Pending) {
            Some(Error::InvalidStatus)
        } else if e.deadline + extra_seconds > u64::MAX {
            Some(Error::ArithmeticOverflow)
        } else {
            None
        }
    }

    /// The depositor pushes the deadline of a pending or in-progress escrow
    /// back by `extra_seconds`, at most the configured extension per call.
    pub fn extend_deadline(&mut self, caller: Address, escrow_id: u64, extra_seconds: u64) -> (r: Result<(), Error>)
        requires
            old(self).wf(),
        ensures
            final(self).wf(),
            milestones_evolve(old(self), final(self)),
            match r {
                Err(err) => old(self).extend_error(caller, escrow_id, extra_seconds) == Some(err)
                    && *final(self) == *old(self),
                Ok(()) => {
                    let e = old(self).escrow(escrow_id);
                    &&& old(self).extend_error(caller, escrow_id, extra_seconds) is None
                    &&& final(self).escrows@ == old(self).escrows@.update(
                        escrow_id - 1,
                        Escrow { deadline: (e.deadline + extra_seconds) as u64, ..e },
                    )
                    &&& settings_unchanged(old(self), final(self))
                    &&& books_unchanged(old(self), final(self))
                },
            },
    {
        if let Err(err) = self.when_not_paused() {
            return Err(err);
        }
        let i = match self.escrow_index(escrow_id) {
            Ok(i) => i,
            Err(err) => return Err(err),
        };
        if caller != self.escrows[i].depositor {
            return Err(Error::Unauthorized);
        }
        if extra_seconds == 0 || extra_seconds > self.config.max_extension {
            return Err(Error::InvalidDuration);
        }
        let status = self.escrows[i].status;
        if status != EscrowStatus::InProgress && status != EscrowStatus::Pending {
            return Err(Error::InvalidStatus);
        }
        let deadline = self.escrows[i].deadline;
        if deadline > u64::MAX - extra_seconds {
            return Err(Error::ArithmeticOverflow);
        }
        self.escrows[i].deadline = deadline + extra_seconds;
        proof {
            let e = old(self).escrows@[i as int];
            let e2 = self.escrows@[i as int];
            assert(escrow_wf(e, self.config));
            assert(escrow_wf(e2, self.config));
            assert(self.escrows@ =~= old(self).escrows@.update(i as int, e2));
            lemma_wf_replace(old(self), self, i as int, e2);
        }
        Ok(())
    }
}

} // verus!
