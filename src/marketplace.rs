//! The marketplace board: applications to open jobs and their acceptance.

use vstd::prelude::*;
use crate::errors::Error;
use crate::ledger::{milestones_evolve, escrow_wf, lemma_wf_replace, settings_unchanged, SecureFlow};
use crate::model::{Application, Escrow};
use crate::types::{Address, EscrowStatus};

verus! {

/// Whether `u` has an application on file for escrow `e`.
pub open spec fn applied(e: Escrow, u: Address) -> bool {
    exists|k: int| 0 <= k < e.applications@.len() && (#[trigger] e.applications@[k]).freelancer == u
}

impl SecureFlow {
    /// Whether `u` has applied to escrow `id`.
    pub fn has_applied(&self, escrow_id: u64, user: Address) -> (r: bool)
        ensures
            r == (self.has_escrow(escrow_id) && applied(self.escrow(escrow_id), user)),
    {
        let i = match self.escrow_index(escrow_id) {
            Ok(i) => i,
            Err(_) => return false,
        };
        let apps = &self.escrows[i].applications;
        let mut k: usize = 0;
        while k < apps.len()
            invariant
                k <= apps@.len(),
                self.has_escrow(escrow_id),
                apps@ == self.escrow(escrow_id).applications@,
                forall|q: int| 0 <= q < k ==> (#[trigger] apps@[q]).freelancer != user,
            decreases apps@.len() - k,
        {
            if apps[k].freelancer == user {
                assert(apps@[k as int].freelancer == user);
                return true;
            }
            k = k + 1;
        }
        false
    }

    /// Why `apply_to_job` refuses, if it does.
    pub open spec fn apply_error(&self, caller: Address, id: u64, cover_letter: Seq<char>) -> Option<Error> {
        let e = self.escrow(id);
        if self.paused {
            Some(Error::Paused)
        } else if !self.has_escrow(id) {
            Some(Error::InvalidEscrow)
        } else if !e.is_open_job {
            Some(Error::InvalidStatus)
        } else if !(e.status is Pending) {
            Some(Error::InvalidStatus)
        } else if applied(e, caller) {
            Some(Error::AlreadySubmitted)
        } else if e.applications@.len() >= self.config.max_applications {
            Some(Error::TooManyMilestones)
        } else if caller == e.depositor {
            Some(Error::Unauthorized)
        } else if cover_letter.len() == 0 {
            Some(Error::InvalidAmount)
        } else {
            None
        }
    }

    /// A freelancer applies, once, to a pending open job that is not their
    /// own, while the job has room for more applications.
    pub fn apply_to_job(
        &mut self,
        caller: Address,
        now: u64,
        escrow_id: u64,
        cover_letter: String,
        proposed_timeline: u64,
    ) -> (r: Result<(), Error>)
        requires
            old(self).wf(),
        ensures
            final(self).wf(),
            milestones_evolve(old(self), final(self)),
            match r {
                Err(err) => old(self).apply_error(caller, escrow_id, cover_letter@) == Some(err)
                    && *final(self) == *old(self),
                Ok(()) => {
                    let e = old(self).escrow(escrow_id);
                    let e2 = final(self).escrow(escrow_id);
                    &&& old(self).apply_error(caller, escrow_id, cover_letter@) is None
                    &&& final(self).escrows@ == old(self).escrows@.update(escrow_id - 1, e2)
                    &&& e2 == Escrow { applications: e2.applications, ..e }
                    &&& e2.applications@ == e.applications@.push(
                        Application {
                            freelancer: caller,
                            cover_letter,
                            proposed_timeline,
                            applied_at: now,
                            exists: true,
                        },
                    )
                    &&& e2.applications@.len() <= old(self).config.max_applications
                    &&& settings_unchanged(old(self), final(self))
                    &&& crate::ledger::books_unchanged(old(self), final(self))
                },
            },
    {
        if let Err(err) = self.when_not_paused() {
            return Err(err);
        }
        let i = match self.escrow_index(escrow_id) {
            Ok(i) => i,
            Err(err) => return Err(err),
        };
        if !self.escrows[i].is_open_job {
            return Err(Error::InvalidStatus);
        }
        if self.escrows[i].status != EscrowStatus::Pending {
            return Err(Error::InvalidStatus);
        }
        if self.has_applied(escrow_id, caller) {
            return Err(Error::AlreadySubmitted);
        }
        if self.escrows[i].applications.len() as u128 >= self.config.max_applications as u128 {
            return Err(Error::TooManyMilestones);
        }
        if caller == self.escrows[i].depositor {
            return Err(Error::Unauthorized);
        }
        if cover_letter.as_str().is_empty() {
            return Err(Error::InvalidAmount);
        }
        let app = Application { freelancer: caller, cover_letter, proposed_timeline, applied_at: now, exists: true };
        self.escrows[i].applications.push(app);
        proof {
            let e = old(self).escrows@[i as int];
            let e2 = self.escrows@[i as int];
            assert(escrow_wf(e, self.config));
            assert(e2.applications@ == e.applications@.push(app));
            assert forall|k1: int, k2: int|
                0 <= k1 < k2 < e2.applications@.len() implies #[trigger] e2.applications@[k1].freelancer
                    != #[trigger] e2.applications@[k2].freelancer by {
                if k2 == e.applications@.len() {
                    assert(e2.applications@[k1] == e.applications@[k1]);
                }
            }
            assert(escrow_wf(e2, self.config));
            assert(self.escrows@ =~= old(self).escrows@.update(i as int, e2));
            lemma_wf_replace(old(self), self, i as int, e2);
        }
        Ok(())
    }

    /// Why `accept_freelancer` refuses, if it does.
    pub open spec fn accept_error(&self, caller: Address, id: u64, freelancer: Address) -> Option<Error> {
        let e = self.escrow(id);
        if self.paused {
            Some(Error::Paused)
        } else if !self.has_escrow(id) {
            Some(Error::InvalidEscrow)
        } else if caller != e.depositor {
            Some(Error::Unauthorized)
        } else if !e.is_open_job {
            Some(Error::InvalidStatus)
        } else if !(e.status is Pending) {
            Some(Error::InvalidStatus)
        } else if !applied(e, freelancer) {
            Some(Error::InvalidEscrow)
        } else {
            None
        }
    }

    /// The depositor of a pending open job names one of its applicants as
    /// the beneficiary; the job is no longer open and is indexed under the
    /// freelancer.  No funds move.
    pub fn accept_freelancer(&mut self, caller: Address, escrow_id: u64, freelancer: Address) -> (r: Result<(), Error>)
        requires
            old(self).wf(),
        ensures
            final(self).wf(),
            milestones_evolve(old(self), final(self)),
            match r {
                Err(err) => old(self).accept_error(caller, escrow_id, freelancer) == Some(err)
                    && *final(self) == *old(self),
                Ok(()) => {
                    let e = old(self).escrow(escrow_id);
                    &&& old(self).accept_error(caller, escrow_id, freelancer) is None
                    &&& final(self).escrows@ == old(self).escrows@.update(
                        escrow_id - 1,
                        Escrow { beneficiary: freelancer, is_open_job: false, ..e },
                    )
                    &&& final(self).user_escrows@ == old(self).user_escrows@.push((freelancer, escrow_id))
                    &&& settings_unchanged(old(self), final(self))
                    &&& final(self).escrowed_amount@ == old(self).escrowed_amount@
                    &&& final(self).total_fees_by_token@ == old(self).total_fees_by_token@
                    &&& final(self).reputation@ == old(self).reputation@
                    &&& final(self).completed_escrows@ == old(self).completed_escrows@
                },
            },
    {
        if let Err(err) = self.when_not_paused() {
            return Err(err);
        }
        let i = match self.escrow_index(escrow_id) {
            Ok(i) => i,
            Err(err) => return Err(err),
        };
        if caller != self.escrows[i].depositor {
            return Err(Error::Unauthorized);
        }
        if !self.escrows[i].is_open_job {
            return Err(Error::InvalidStatus);
        }
        if self.escrows[i].status != EscrowStatus::Pending {
            return Err(Error::InvalidStatus);
        }
        if !self.has_applied(escrow_id, freelancer) {
            return Err(Error::InvalidEscrow);
        }
        self.escrows[i].beneficiary = freelancer;
        self.escrows[i].is_open_job = false;
        self.user_escrows.push((freelancer, escrow_id));
        proof {
            let e = old(self).escrows@[i as int];
            let e2 = self.escrows@[i as int];
            assert(escrow_wf(e, self.config));
            let k = choose|k: int| 0 <= k < e.applications@.len() && (#[trigger] e.applications@[k]).freelancer == freelancer;
            assert(e.applications@[k].freelancer != e.depositor);
            assert(escrow_wf(e2, self.config));
            assert(self.escrows@ =~= old(self).escrows@.update(i as int, e2));
            lemma_wf_replace(old(self), self, i as int, e2);
        }
        Ok(())
    }
}

} // verus!
