//! The ledger store, its invariant, and the helpers that every operation
//! shares.

use vstd::prelude::*;
use crate::errors::Error;
use crate::model::{held_by, lemma_outstanding_update, lemma_settled_le_sum, standard_config, outstanding, settled_amounts, sum_amounts, Config, Escrow};
use crate::table::{value_or, AddressTable};
use crate::types::{Address, MilestoneStatus};

verus! {

/// The whole persistent state: configuration, escrows with their milestones
/// and applications, per-asset reserves and fees, and per-user records.
///
/// Escrow ids start at 1: escrow `id` is `escrows[id - 1]`, and the next id
/// is always one past the number of escrows.
pub struct SecureFlow {
    pub config: Config,
    pub owner: Address,
    pub fee_collector: Address,
    pub platform_fee_bp: u64,
    pub paused: bool,
    pub job_creation_paused: bool,
    pub escrows: Vec<Escrow>,
    pub authorized_arbiters: AddressTable<bool>,
    pub whitelisted_tokens: AddressTable<bool>,
    pub escrowed_amount: AddressTable<u128>,
    pub total_fees_by_token: AddressTable<u128>,
    pub reputation: AddressTable<u128>,
    pub completed_escrows: AddressTable<u128>,
    /// Participation index: `(user, escrow id)` in the order recorded.
    pub user_escrows: Vec<(Address, u64)>,
}

/// The invariant of a single escrow.
pub open spec fn escrow_wf(e: Escrow, cfg: Config) -> bool {
    &&& e.milestones@.len() > 0
    &&& forall|j: int| 0 <= j < e.milestones@.len() ==> #[trigger] e.milestones@[j].amount > 0
    &&& sum_amounts(e.milestones@) == e.total_amount
    &&& settled_amounts(e.milestones@) == e.paid_amount
    &&& (e.status is Released) == (e.paid_amount == e.total_amount)
    &&& e.arbiters@.len() > 0
    &&& (e.status is InProgress || e.status is Disputed || e.status is Released) ==> !e.is_open_job
    &&& !e.is_open_job ==> e.beneficiary != e.depositor
    &&& e.applications@.len() <= cfg.max_applications
    &&& forall|k: int|
        0 <= k < e.applications@.len() ==> #[trigger] e.applications@[k].freelancer != e.depositor
    &&& forall|k1: int, k2: int|
        0 <= k1 < k2 < e.applications@.len() ==> #[trigger] e.applications@[k1].freelancer
            != #[trigger] e.applications@[k2].freelancer
}

/// The ids paired with `u` in `s`, in order.
pub open spec fn ids_for(s: Seq<(Address, u64)>, u: Address) -> Seq<u64>
    decreases s.len(),
{
    if s.len() == 0 {
        Seq::empty()
    } else if s.last().0 == u {
        ids_for(s.drop_last(), u).push(s.last().1)
    } else {
        ids_for(s.drop_last(), u)
    }
}

/// `p` points added to `u`'s entry; the zero address and zero points leave
/// the table as it is.
pub open spec fn credit(m: Map<Address, u128>, u: Address, p: u128) -> Map<Address, u128> {
    if u.is_zero() || p == 0 {
        m
    } else {
        m.insert(u, (value_or(m, u, 0u128) + p) as u128)
    }
}

/// One added to `u`'s entry.
pub open spec fn bump(m: Map<Address, u128>, u: Address) -> Map<Address, u128> {
    m.insert(u, (value_or(m, u, 0u128) + 1) as u128)
}

/// Configuration and permission lists are the same in `a` and `b`.
pub open spec fn settings_unchanged(a: &SecureFlow, b: &SecureFlow) -> bool {
    &&& a.config == b.config
    &&& a.owner == b.owner
    &&& a.fee_collector == b.fee_collector
    &&& a.platform_fee_bp == b.platform_fee_bp
    &&& a.paused == b.paused
    &&& a.job_creation_paused == b.job_creation_paused
    &&& a.authorized_arbiters@ == b.authorized_arbiters@
    &&& a.whitelisted_tokens@ == b.whitelisted_tokens@
}

/// Per-asset and per-user books are the same in `a` and `b`.
pub open spec fn books_unchanged(a: &SecureFlow, b: &SecureFlow) -> bool {
    &&& a.escrowed_amount@ == b.escrowed_amount@
    &&& a.total_fees_by_token@ == b.total_fees_by_token@
    &&& a.reputation@ == b.reputation@
    &&& a.completed_escrows@ == b.completed_escrows@
    &&& a.user_escrows@ == b.user_escrows@
}

/// A milestone status may only move along these steps.
pub open spec fn milestone_step(from: MilestoneStatus, to: MilestoneStatus) -> bool {
    ||| from is NotStarted && to is Submitted
    ||| from is Submitted && to is Approved
    ||| from is Submitted && to is Rejected
    ||| from is Rejected && to is Submitted
    ||| from is Submitted && to is Disputed
    ||| from is Disputed && to is Resolved
}

/// Every milestone of `a` is still there in `b`, with its status unchanged
/// or moved by one allowed step.
pub open spec fn milestones_evolve(a: &SecureFlow, b: &SecureFlow) -> bool {
    &&& a.escrows@.len() <= b.escrows@.len()
    &&& forall|i: int|
        0 <= i < a.escrows@.len() ==> #[trigger] b.escrows@[i].milestones@.len()
            == a.escrows@[i].milestones@.len()
    &&& forall|i: int, j: int|
        0 <= i < a.escrows@.len() && 0 <= j < a.escrows@[i].milestones@.len() ==> {
            let s = a.escrows@[i].milestones@[j].status;
            let t = #[trigger] b.escrows@[i].milestones@[j].status;
            s == t || milestone_step(s, t)
        }
}

impl SecureFlow {
    /// The ledger's invariant: every escrow is well formed, and each asset's
    /// reserve equals what the live escrows in that asset still hold.
    pub open spec fn wf(&self) -> bool {
        &&& self.config.reputation_per_milestone + self.config.reputation_per_escrow <= u128::MAX
        &&& self.escrows@.len() < u64::MAX
        &&& forall|i: int|
            0 <= i < self.escrows@.len() ==> escrow_wf(#[trigger] self.escrows@[i], self.config)
        &&& forall|a: Address| #[trigger] self.reserve(a) == outstanding(self.escrows@, a)
    }

    /// The reserve counter of asset `a`.
    pub open spec fn reserve(&self, a: Address) -> int {
        value_or(self.escrowed_amount@, a, 0u128) as int
    }

    pub open spec fn has_escrow(&self, id: u64) -> bool {
        1 <= id <= self.escrows@.len()
    }

    /// The escrow with id `id`.
    pub open spec fn escrow(&self, id: u64) -> Escrow {
        self.escrows@[id - 1]
    }

    /// The escrow ids recorded for `u`, in order.
    pub open spec fn escrows_of(&self, u: Address) -> Seq<u64> {
        ids_for(self.user_escrows@, u)
    }

    /// A fresh ledger whose owner is `caller`.  A nonzero `native_alias` is
    /// whitelisted as an asset from the start.
    pub fn init(caller: Address, native_alias: Address, fee_collector: Address, platform_fee_bp: u64)
        -> (r: Result<SecureFlow, Error>)
        ensures
            fee_collector.is_zero() ==> r == Err::<SecureFlow, Error>(Error::Unauthorized),
            !fee_collector.is_zero() && platform_fee_bp > 1000 ==> r == Err::<SecureFlow, Error>(
                Error::InvalidAmount,
            ),
            !fee_collector.is_zero() && platform_fee_bp <= 1000 ==> (r matches Ok(l) && {
                &&& l.wf()
                &&& l.owner == caller
                &&& l.fee_collector == fee_collector
                &&& l.platform_fee_bp == platform_fee_bp
                &&& !l.paused && !l.job_creation_paused
                &&& l.escrows@.len() == 0
                &&& l.user_escrows@.len() == 0
                &&& l.authorized_arbiters@ == Map::<Address, bool>::empty()
                &&& l.whitelisted_tokens@ == (if native_alias.is_zero() {
                    Map::<Address, bool>::empty()
                } else {
                    Map::<Address, bool>::empty().insert(native_alias, true)
                })
                &&& l.escrowed_amount@ == Map::<Address, u128>::empty()
                &&& l.total_fees_by_token@ == Map::<Address, u128>::empty()
                &&& l.reputation@ == Map::<Address, u128>::empty()
                &&& l.completed_escrows@ == Map::<Address, u128>::empty()
                &&& l.config == standard_config()
            }),
    {
        if fee_collector.is_zero() {
            return Err(Error::Unauthorized);
        }
        let config = Config::standard();
        if platform_fee_bp > config.max_platform_fee_bp {
            return Err(Error::InvalidAmount);
        }
        let mut whitelisted_tokens = AddressTable::new();
        if !native_alias.is_zero() {
            whitelisted_tokens.set(native_alias, true);
        }
        let l = SecureFlow {
            config,
            owner: caller,
            fee_collector,
            platform_fee_bp,
            paused: false,
            job_creation_paused: false,
            escrows: Vec::new(),
            authorized_arbiters: AddressTable::new(),
            whitelisted_tokens,
            escrowed_amount: AddressTable::new(),
            total_fees_by_token: AddressTable::new(),
            reputation: AddressTable::new(),
            completed_escrows: AddressTable::new(),
            user_escrows: Vec::new(),
        };
        assert(l.wf());
        Ok(l)
    }

    pub fn when_not_paused(&self) -> (r: Result<(), Error>)
        ensures
            r == (if self.paused { Err(Error::Paused) } else { Ok::<(), Error>(()) }),
    {
        if self.paused {
            return Err(Error::Paused);
        }
        Ok(())
    }

    pub fn when_job_creation_not_paused(&self) -> (r: Result<(), Error>)
        ensures
            r == (if self.job_creation_paused {
                Err(Error::JobCreationPaused)
            } else {
                Ok::<(), Error>(())
            }),
    {
        if self.job_creation_paused {
            return Err(Error::JobCreationPaused);
        }
        Ok(())
    }

    pub fn only_owner(&self, caller: Address) -> (r: Result<(), Error>)
        ensures
            r == (if caller != self.owner {
                Err(Error::Unauthorized)
            } else {
                Ok::<(), Error>(())
            }),
    {
        if caller != self.owner {
            return Err(Error::Unauthorized);
        }
        Ok(())
    }

    /// The position of escrow `id` in `escrows`, or `InvalidEscrow`.
    pub fn escrow_index(&self, id: u64) -> (r: Result<usize, Error>)
        ensures
            match r {
                Ok(i) => self.has_escrow(id) && i as int == id - 1,
                Err(e) => !self.has_escrow(id) && e == Error::InvalidEscrow,
            },
    {
        if id == 0 || id as u128 > self.escrows.len() as u128 {
            return Err(Error::InvalidEscrow);
        }
        Ok((id - 1) as usize)
    }

    /// Whether `who` is one of the arbiters registered on escrow `id`.
    pub fn is_arbiter_for_escrow_internal(&self, id: u64, who: Address) -> (r: bool)
        ensures
            r == (self.has_escrow(id) && self.escrow(id).arbiters@.contains(who)),
    {
        if id == 0 || id as u128 > self.escrows.len() as u128 {
            return false;
        }
        let arbiters = &self.escrows[(id - 1) as usize].arbiters;
        assert(arbiters@ == self.escrow(id).arbiters@);
        let mut i: usize = 0;
        while i < arbiters.len()
            invariant
                i <= arbiters@.len(),
                self.has_escrow(id),
                arbiters@ == self.escrow(id).arbiters@,
                forall|k: int| 0 <= k < i ==> arbiters@[k] != who,
            decreases arbiters@.len() - i,
        {
            if arbiters[i] == who {
                assert(arbiters@[i as int] == who);
                assert(self.escrow(id).arbiters@.contains(who));
                assert(self.has_escrow(id));
                return true;
            }
            i = i + 1;
        }
        false
    }

    /// Whether the completion rewards fit their counters: `pb` and `pd` points
    /// to the beneficiary `b` and depositor `d`, and, where `completes`, one
    /// more completed escrow for each.
    pub open spec fn rewards_fit(&self, b: Address, d: Address, pb: u128, pd: u128, completes: bool) -> bool {
        &&& value_or(self.reputation@, b, 0u128) + pb <= u128::MAX
        &&& value_or(self.reputation@, d, 0u128) + pd <= u128::MAX
        &&& completes ==> value_or(self.completed_escrows@, b, 0u128) + 1 <= u128::MAX
        &&& completes ==> value_or(self.completed_escrows@, d, 0u128) + 1 <= u128::MAX
    }

    pub fn check_rewards(&self, b: Address, d: Address, pb: u128, pd: u128, completes: bool) -> (r: bool)
        ensures
            r == self.rewards_fit(b, d, pb, pd, completes),
    {
        let rb = self.reputation.get_or(b, 0);
        let rd = self.reputation.get_or(d, 0);
        if rb > u128::MAX - pb || rd > u128::MAX - pd {
            return false;
        }
        if completes {
            let cb = self.completed_escrows.get_or(b, 0);
            let cd = self.completed_escrows.get_or(d, 0);
            if cb == u128::MAX || cd == u128::MAX {
                return false;
            }
        }
        true
    }

    /// Credits the rewards that `rewards_fit` has admitted.
    pub fn apply_rewards(&mut self, b: Address, d: Address, pb: u128, pd: u128, completes: bool)
        requires
            old(self).rewards_fit(b, d, pb, pd, completes),
            b != d,
        ensures
            final(self).reputation@ == credit(credit(old(self).reputation@, b, pb), d, pd),
            final(self).completed_escrows@ == (if completes {
                bump(bump(old(self).completed_escrows@, b), d)
            } else {
                old(self).completed_escrows@
            }),
            final(self).escrows == old(self).escrows,
            settings_unchanged(old(self), final(self)),
            final(self).escrowed_amount@ == old(self).escrowed_amount@,
            final(self).total_fees_by_token@ == old(self).total_fees_by_token@,
            final(self).user_escrows@ == old(self).user_escrows@,
    {
        if !b.is_zero() && pb > 0 {
            let rb = self.reputation.get_or(b, 0);
            self.reputation.set(b, rb + pb);
        }
        if !d.is_zero() && pd > 0 {
            let rd = self.reputation.get_or(d, 0);
            self.reputation.set(d, rd + pd);
        }
        if completes {
            let cb = self.completed_escrows.get_or(b, 0);
            self.completed_escrows.set(b, cb + 1);
            let cd = self.completed_escrows.get_or(d, 0);
            self.completed_escrows.set(d, cd + 1);
        }
    }
}

/// Every escrow of a well-formed ledger is paid no more than its total.
pub proof fn lemma_paid_le_total(l: &SecureFlow)
    requires
        l.wf(),
    ensures
        forall|k: int|
            0 <= k < l.escrows@.len() ==> (#[trigger] l.escrows@[k]).paid_amount
                <= l.escrows@[k].total_amount,
{
    assert forall|k: int| 0 <= k < l.escrows@.len() implies (#[trigger] l.escrows@[k]).paid_amount
        <= l.escrows@[k].total_amount by {
        assert(escrow_wf(l.escrows@[k], l.config));
        lemma_settled_le_sum(l.escrows@[k].milestones@);
    }
}

/// Replacing one escrow by a well-formed one, with each reserve moved by the
/// change in what that escrow holds, keeps the ledger well formed.
pub proof fn lemma_wf_replace(a: &SecureFlow, b: &SecureFlow, i: int, e2: Escrow)
    requires
        a.wf(),
        0 <= i < a.escrows@.len(),
        b.escrows@ == a.escrows@.update(i, e2),
        b.config == a.config,
        escrow_wf(e2, b.config),
        forall|x: Address| #[trigger] b.reserve(x) == a.reserve(x) - held_by(a.escrows@[i], x) + held_by(e2, x),
    ensures
        b.wf(),
{
    assert forall|k: int| 0 <= k < b.escrows@.len() implies escrow_wf(#[trigger] b.escrows@[k], b.config) by {
        if k != i {
            assert(escrow_wf(a.escrows@[k], a.config));
        }
    }
    assert forall|x: Address| #[trigger] b.reserve(x) == outstanding(b.escrows@, x) by {
        assert(a.reserve(x) == outstanding(a.escrows@, x));
        lemma_outstanding_update(a.escrows@, i, e2, x);
    }
}

/// The invariant reads only the configuration, the escrows and the reserves.
pub proof fn lemma_wf_frame(a: &SecureFlow, b: &SecureFlow)
    requires
        a.wf(),
        b.config == a.config,
        b.escrows@ == a.escrows@,
        b.escrowed_amount@ == a.escrowed_amount@,
    ensures
        b.wf(),
{
    assert forall|i: int| 0 <= i < b.escrows@.len() implies escrow_wf(#[trigger] b.escrows@[i], b.config) by {
        assert(escrow_wf(a.escrows@[i], a.config));
    }
    assert forall|x: Address| #[trigger] b.reserve(x) == outstanding(b.escrows@, x) by {
        assert(a.reserve(x) == outstanding(a.escrows@, x));
    }
}

} // verus!
