//! Read-only projections of the ledger.

use vstd::prelude::*;
use crate::errors::Error;
use crate::ledger::{ids_for, lemma_paid_le_total, SecureFlow};
use crate::marketplace::applied;
use crate::model::{Application, Milestone};
use crate::table::value_or;
use crate::types::{Address, EscrowStatus};

verus! {

/// What a caller can read of one escrow.
#[derive(Debug)]
pub struct EscrowSummary {
    pub depositor: Address,
    pub beneficiary: Address,
    pub arbiters: Vec<Address>,
    pub status: EscrowStatus,
    pub total_amount: u128,
    pub paid_amount: u128,
    pub remaining_amount: u128,
    pub token: Address,
    pub deadline: u64,
    pub work_started: bool,
    pub created_at: u64,
    pub milestone_count: u64,
    pub is_open_job: bool,
    pub project_title: String,
    pub project_description: String,
}

fn copy_addresses(v: &Vec<Address>) -> (r: Vec<Address>)
    ensures
        r@ == v@,
{
    let mut r: Vec<Address> = Vec::new();
    let mut k: usize = 0;
    while k < v.len()
        invariant
            k <= v@.len(),
            r@ == v@.take(k as int),
        decreases v@.len() - k,
    {
        r.push(v[k]);
        k = k + 1;
        assert(r@ =~= v@.take(k as int));
    }
    assert(v@.take(k as int) =~= v@);
    r
}

fn copy_milestone(m: &Milestone) -> (r: Milestone)
    ensures
        r == *m,
{
    Milestone {
        description: m.description.clone(),
        amount: m.amount,
        status: m.status,
        submitted_at: m.submitted_at,
        approved_at: m.approved_at,
        disputed_at: m.disputed_at,
        disputed_by: m.disputed_by,
        dispute_reason: m.dispute_reason.clone(),
    }
}

fn copy_application(a: &Application) -> (r: Application)
    ensures
        r == *a,
{
    Application {
        freelancer: a.freelancer,
        cover_letter: a.cover_letter.clone(),
        proposed_timeline: a.proposed_timeline,
        applied_at: a.applied_at,
        exists: a.exists,
    }
}

impl SecureFlow {
    /// The id that the next escrow will get.
    pub fn next_escrow_id(&self) -> (r: u64)
        requires
            self.wf(),
        ensures
            r == self.escrows@.len() + 1,
    {
        self.escrows.len() as u64 + 1
    }

    pub fn owner(&self) -> (r: Address)
        ensures
            r == self.owner,
    {
        self.owner
    }

    pub fn paused(&self) -> (r: bool)
        ensures
            r == self.paused,
    {
        self.paused
    }

    pub fn platform_fee_bp(&self) -> (r: u64)
        ensures
            r == self.platform_fee_bp,
    {
        self.platform_fee_bp
    }

    pub fn fee_collector(&self) -> (r: Address)
        ensures
            r == self.fee_collector,
    {
        self.fee_collector
    }

    pub fn job_creation_paused(&self) -> (r: bool)
        ensures
            r == self.job_creation_paused,
    {
        self.job_creation_paused
    }

    /// Whether `arbiter` is authorized.
    pub fn authorized_arbiters(&self, arbiter: Address) -> (r: bool)
        ensures
            r == value_or(self.authorized_arbiters@, arbiter, false),
    {
        self.authorized_arbiters.get_or(arbiter, false)
    }

    /// Whether `token` is whitelisted.
    pub fn whitelisted_tokens(&self, token: Address) -> (r: bool)
        ensures
            r == value_or(self.whitelisted_tokens@, token, false),
    {
        self.whitelisted_tokens.get_or(token, false)
    }

    /// The reputation score of `user`.
    pub fn reputation(&self, user: Address) -> (r: u128)
        ensures
            r == value_or(self.reputation@, user, 0u128),
    {
        self.reputation.get_or(user, 0)
    }

    /// The number of completed escrows of `user`.
    pub fn completed_escrows(&self, user: Address) -> (r: u128)
        ensures
            r == value_or(self.completed_escrows@, user, 0u128),
    {
        self.completed_escrows.get_or(user, 0)
    }

    /// The reserve of `token`.
    pub fn escrowed_amount(&self, token: Address) -> (r: u128)
        ensures
            r == self.reserve(token),
    {
        self.escrowed_amount.get_or(token, 0)
    }

    /// The accrued fees in `token` pending withdrawal.
    pub fn total_fees_by_token(&self, token: Address) -> (r: u128)
        ensures
            r == value_or(self.total_fees_by_token@, token, 0u128),
    {
        self.total_fees_by_token.get_or(token, 0)
    }

    pub fn is_arbiter_for_escrow(&self, escrow_id: u64, arbiter: Address) -> (r: bool)
        ensures
            r == (self.has_escrow(escrow_id) && self.escrow(escrow_id).arbiters@.contains(arbiter)),
    {
        self.is_arbiter_for_escrow_internal(escrow_id, arbiter)
    }

    /// The readable fields of escrow `id`, with its remaining balance.
    pub fn get_escrow_summary(&self, escrow_id: u64) -> (r: Result<EscrowSummary, Error>)
        requires
            self.wf(),
        ensures
            !self.has_escrow(escrow_id) ==> r == Err::<EscrowSummary, Error>(Error::InvalidEscrow),
            self.has_escrow(escrow_id) ==> (r matches Ok(s) && {
                let e = self.escrow(escrow_id);
                &&& s.depositor == e.depositor
                &&& s.beneficiary == e.beneficiary
                &&& s.arbiters@ == e.arbiters@
                &&& s.status == e.status
                &&& s.total_amount == e.total_amount
                &&& s.paid_amount == e.paid_amount
                &&& s.remaining_amount == e.total_amount - e.paid_amount
                &&& s.token == e.token
                &&& s.deadline == e.deadline
                &&& s.work_started == e.work_started
                &&& s.created_at == e.created_at
                &&& s.milestone_count == e.milestones@.len()
                &&& s.is_open_job == e.is_open_job
                &&& s.project_title == e.project_title
                &&& s.project_description == e.project_description
            }),
    {
        let i = match self.escrow_index(escrow_id) {
            Ok(i) => i,
            Err(err) => return Err(err),
        };
        proof {
            lemma_paid_le_total(self);
        }
        let e = &self.escrows[i];
        Ok(EscrowSummary {
            depositor: e.depositor,
            beneficiary: e.beneficiary,
            arbiters: copy_addresses(&e.arbiters),
            status: e.status,
            total_amount: e.total_amount,
            paid_amount: e.paid_amount,
            remaining_amount: e.total_amount - e.paid_amount,
            token: e.token,
            deadline: e.deadline,
            work_started: e.work_started,
            created_at: e.created_at,
            milestone_count: e.milestones.len() as u64,
            is_open_job: e.is_open_job,
            project_title: e.project_title.clone(),
            project_description: e.project_description.clone(),
        })
    }

    /// Copies of the milestones of escrow `id`, in order.
    pub fn get_milestones(&self, escrow_id: u64) -> (r: Result<Vec<Milestone>, Error>)
        ensures
            !self.has_escrow(escrow_id) ==> r == Err::<Vec<Milestone>, Error>(Error::InvalidEscrow),
            self.has_escrow(escrow_id) ==> (r matches Ok(ms) && ms@ == self.escrow(escrow_id).milestones@),
    {
        let i = match self.escrow_index(escrow_id) {
            Ok(i) => i,
            Err(err) => return Err(err),
        };
        let src = &self.escrows[i].milestones;
        let mut out: Vec<Milestone> = Vec::new();
        let mut k: usize = 0;
        while k < src.len()
            invariant
                k <= src@.len(),
                out@ == src@.take(k as int),
            decreases src@.len() - k,
        {
            out.push(copy_milestone(&src[k]));
            k = k + 1;
            assert(out@ =~= src@.take(k as int));
        }
        assert(src@.take(k as int) =~= src@);
        Ok(out)
    }

    /// The ids of the escrows in which `user` takes part, in the order in
    /// which they were recorded.
    pub fn get_user_escrows(&self, user: Address) -> (r: Vec<u64>)
        ensures
            r@ == self.escrows_of(user),
    {
        let src = &self.user_escrows;
        let mut out: Vec<u64> = Vec::new();
        let mut k: usize = 0;
        while k < src.len()
            invariant
                k <= src@.len(),
                out@ == ids_for(src@.take(k as int), user),
            decreases src@.len() - k,
        {
            proof {
                assert(src@.take(k + 1).drop_last() =~= src@.take(k as int));
            }
            if src[k].0 == user {
                out.push(src[k].1);
            }
            k = k + 1;
        }
        assert(src@.take(k as int) =~= src@);
        out
    }

    /// Up to `limit` applications of escrow `id`, starting at `offset`.
    pub fn get_applications_page(&self, escrow_id: u64, offset: u64, limit: u64) -> (r: Result<Vec<Application>, Error>)
        ensures
            ({
                let apps = self.escrow(escrow_id).applications@;
                if !self.has_escrow(escrow_id) {
                    r == Err::<Vec<Application>, Error>(Error::InvalidEscrow)
                } else if limit == 0 || limit > self.config.max_applications {
                    r == Err::<Vec<Application>, Error>(Error::InvalidAmount)
                } else if offset > apps.len() {
                    r == Err::<Vec<Application>, Error>(Error::InvalidAmount)
                } else {
                    let end = if offset + limit < apps.len() { offset + limit } else { apps.len() as int };
                    r matches Ok(page) && page@ == apps.subrange(offset as int, end)
                }
            }),
    {
        let i = match self.escrow_index(escrow_id) {
            Ok(i) => i,
            Err(err) => return Err(err),
        };
        if limit == 0 || limit > self.config.max_applications {
            return Err(Error::InvalidAmount);
        }
        let src = &self.escrows[i].applications;
        if offset as u128 > src.len() as u128 {
            return Err(Error::InvalidAmount);
        }
        let start = offset as usize;
        let end: usize = if (offset as u128) + (limit as u128) < src.len() as u128 {
            (offset + limit) as usize
        } else {
            src.len()
        };
        let mut out: Vec<Application> = Vec::new();
        let mut k: usize = start;
        while k < end
            invariant
                start <= k <= end <= src@.len(),
                out@ == src@.subrange(start as int, k as int),
            decreases end - k,
        {
            out.push(copy_application(&src[k]));
            k = k + 1;
            assert(out@ =~= src@.subrange(start as int, k as int));
        }
        Ok(out)
    }

    /// The number of applications to escrow `id`.
    pub fn get_application_count(&self, escrow_id: u64) -> (r: Result<u64, Error>)
        ensures
            !self.has_escrow(escrow_id) ==> r == Err::<u64, Error>(Error::InvalidEscrow),
            self.has_escrow(escrow_id) ==> r == Ok::<u64, Error>(
                self.escrow(escrow_id).applications@.len() as u64,
            ),
    {
        let i = match self.escrow_index(escrow_id) {
            Ok(i) => i,
            Err(err) => return Err(err),
        };
        Ok(self.escrows[i].applications.len() as u64)
    }

    /// Whether `user` has applied to escrow `id`.
    pub fn has_user_applied(&self, escrow_id: u64, user: Address) -> (r: Result<bool, Error>)
        ensures
            !self.has_escrow(escrow_id) ==> r == Err::<bool, Error>(Error::InvalidEscrow),
            self.has_escrow(escrow_id) ==> r == Ok::<bool, Error>(applied(self.escrow(escrow_id), user)),
    {
        if let Err(err) = self.escrow_index(escrow_id) {
            return Err(err);
        }
        Ok(self.has_applied(escrow_id, user))
    }

    pub fn get_reputation(&self, user: Address) -> (r: u128)
        ensures
            r == value_or(self.reputation@, user, 0u128),
    {
        self.reputation(user)
    }

    pub fn get_completed_escrows(&self, user: Address) -> (r: u128)
        ensures
            r == value_or(self.completed_escrows@, user, 0u128),
    {
        self.completed_escrows(user)
    }

    pub fn get_withdrawable_fees(&self, token: Address) -> (r: u128)
        ensures
            r == value_or(self.total_fees_by_token@, token, 0u128),
    {
        self.total_fees_by_token(token)
    }
}

} // verus!
