//! Escrow creation.

use vstd::prelude::*;
use crate::errors::Error;
use crate::ledger::{milestones_evolve, escrow_wf, settings_unchanged, SecureFlow};
use crate::model::{
    lemma_outstanding_push, lemma_sum_seq_push, outstanding, settled_amounts, sum_amounts,
    sum_seq, Escrow, Milestone, Transfer,
};
use crate::table::value_or;
use crate::types::{Address, EscrowStatus, MilestoneStatus};

verus! {

/// The platform fee on `total` at `bp` basis points.
pub open spec fn fee_of(total: int, bp: u64) -> int {
    total * bp / 10000
}

/// `b` is `a` with one more escrow, `id`, created by `caller` at `now` from
/// these arguments: its fields, its milestones, the reserve of its asset and
/// the participation index are as creation leaves them, and nothing else
/// differs.
pub open spec fn created(
    a: &SecureFlow,
    b: &SecureFlow,
    id: u64,
    caller: Address,
    now: u64,
    beneficiary: Address,
    arbiters: Vec<Address>,
    required_confirmations: u8,
    amounts: Seq<u128>,
    descriptions: Seq<String>,
    token: Address,
    duration: u64,
    project_title: String,
    project_description: String,
) -> bool {
    let total = sum_seq(amounts);
    let e = b.escrows@.last();
    let open = beneficiary.is_zero();
    &&& id == a.escrows@.len() + 1
    &&& b.escrows@ == a.escrows@.push(e)
    &&& e.depositor == caller
    &&& e.beneficiary == beneficiary
    &&& e.arbiters == arbiters
    &&& e.required_confirmations == required_confirmations
    &&& e.token == token
    &&& e.total_amount == total
    &&& e.paid_amount == 0
    &&& e.platform_fee == fee_of(total, a.platform_fee_bp)
    &&& e.deadline == now + duration
    &&& e.status == EscrowStatus::Pending
    &&& !e.work_started
    &&& e.created_at == now
    &&& e.is_open_job == open
    &&& e.project_title == project_title
    &&& e.project_description == project_description
    &&& e.applications@.len() == 0
    &&& e.milestones@.len() == amounts.len()
    &&& forall|k: int| 0 <= k < e.milestones@.len() ==> {
        let m = #[trigger] e.milestones@[k];
        &&& m.description == descriptions[k]
        &&& m.amount == amounts[k]
        &&& m.status == MilestoneStatus::NotStarted
        &&& m.submitted_at == 0 && m.approved_at == 0 && m.disputed_at == 0
        &&& m.disputed_by.is_zero()
        &&& m.dispute_reason@.len() == 0
    }
    &&& b.escrowed_amount@ == a.escrowed_amount@.insert(token, (a.reserve(token) + total) as u128)
    &&& b.user_escrows@ == (if open {
        a.user_escrows@.push((caller, id))
    } else {
        a.user_escrows@.push((caller, id)).push((beneficiary, id))
    })
    &&& settings_unchanged(a, b)
    &&& b.total_fees_by_token@ == a.total_fees_by_token@
    &&& b.reputation@ == a.reputation@
    &&& b.completed_escrows@ == a.completed_escrows@
}

impl SecureFlow {
    /// Whether asset `t` may back an escrow: the native currency always may.
    pub open spec fn asset_allowed(&self, t: Address) -> bool {
        t.is_zero() || value_or(self.whitelisted_tokens@, t, false)
    }

    /// Whether `a` is on the list of authorized arbiters.
    pub open spec fn arbiter_authorized(&self, a: Address) -> bool {
        value_or(self.authorized_arbiters@, a, false)
    }

    /// Whether creating an escrow of `total` in `token` would overflow an
    /// amount, the fee, the reserve, the deadline or the id counter (which
    /// must still hold the id after the new one).
    pub open spec fn create_overflows(&self, now: u64, total: int, token: Address, duration: u64) -> bool {
        ||| total > u128::MAX
        ||| total * self.platform_fee_bp > u128::MAX
        ||| total + fee_of(total, self.platform_fee_bp) > u128::MAX
        ||| self.reserve(token) + total > u128::MAX
        ||| now + duration > u64::MAX
        ||| self.escrows@.len() + 1 >= u64::MAX
    }

    /// Why `create_escrow` refuses, if it does; the checks are made in this
    /// order and the first that fails decides.
    pub open spec fn create_error(
        &self,
        caller: Address,
        now: u64,
        attached_value: u128,
        beneficiary: Address,
        arbiters: Seq<Address>,
        required_confirmations: u8,
        amounts: Seq<u128>,
        descriptions_len: nat,
        token: Address,
        duration: u64,
        title: Seq<char>,
    ) -> Option<Error> {
        let total = sum_seq(amounts);
        if self.paused {
            Some(Error::Paused)
        } else if self.job_creation_paused {
            Some(Error::JobCreationPaused)
        } else if !self.asset_allowed(token) {
            Some(Error::TokenNotWhitelisted)
        } else if arbiters.len() == 0 || arbiters.len() > self.config.max_arbiters {
            Some(Error::TooManyArbiters)
        } else if required_confirmations == 0 || required_confirmations > arbiters.len() {
            Some(Error::InvalidAmount)
        } else if exists|k: int| 0 <= k < arbiters.len() && !self.arbiter_authorized(#[trigger] arbiters[k]) {
            Some(Error::ArbiterNotAuthorized)
        } else if !beneficiary.is_zero() && beneficiary == caller {
            Some(Error::BeneficiaryEqualsDepositor)
        } else if duration < self.config.min_duration || duration > self.config.max_duration {
            Some(Error::InvalidDuration)
        } else if amounts.len() == 0 {
            Some(Error::EmptyMilestones)
        } else if amounts.len() != descriptions_len {
            Some(Error::MilestoneCountMismatch)
        } else if amounts.len() > self.config.max_milestones {
            Some(Error::TooManyMilestones)
        } else if exists|k: int| 0 <= k < amounts.len() && #[trigger] amounts[k] == 0 {
            Some(Error::ZeroMilestoneAmount)
        } else if title.len() == 0 {
            Some(Error::EmptyProjectTitle)
        } else if self.create_overflows(now, total, token, duration) {
            Some(Error::ArithmeticOverflow)
        } else if token.is_zero() && attached_value != total + fee_of(total, self.platform_fee_bp) {
            Some(Error::ValueMismatch)
        } else {
            None
        }
    }

    /// Creates an escrow funded by `caller` at time `now`, with one milestone
    /// per amount and description, and returns its id.  The total is the sum
    /// of the milestone amounts; the platform fee is charged on top of it.
    /// A native-currency escrow (zero `token`) is paid by `attached_value`,
    /// which must equal total plus fee; any other asset is pulled from the
    /// caller by the returned `In` transfer.  The reserve of the asset grows
    /// by the total, and the escrow is indexed under the depositor and, unless
    /// `beneficiary` is zero (an open job), under the beneficiary.
    #[verifier::loop_isolation(false)]
    pub fn create_escrow(
        &mut self,
        caller: Address,
        now: u64,
        attached_value: u128,
        beneficiary: Address,
        arbiters: Vec<Address>,
        required_confirmations: u8,
        milestone_amounts: Vec<u128>,
        milestone_descriptions: Vec<String>,
        token: Address,
        duration: u64,
        project_title: String,
        project_description: String,
    ) -> (r: Result<(u64, Option<Transfer>), Error>)
        requires
            old(self).wf(),
        ensures
            final(self).wf(),
            milestones_evolve(old(self), final(self)),
            match r {
                Err(err) => old(self).create_error(
                    caller,
                    now,
                    attached_value,
                    beneficiary,
                    arbiters@,
                    required_confirmations,
                    milestone_amounts@,
                    milestone_descriptions@.len(),
                    token,
                    duration,
                    project_title@,
                ) == Some(err) && *final(self) == *old(self),
                Ok((id, pull)) => {
                    let total = sum_seq(milestone_amounts@);
                    let fee = fee_of(total, old(self).platform_fee_bp);
                    &&& old(self).create_error(
                        caller,
                        now,
                        attached_value,
                        beneficiary,
                        arbiters@,
                        required_confirmations,
                        milestone_amounts@,
                        milestone_descriptions@.len(),
                        token,
                        duration,
                        project_title@,
                    ) is None
                    &&& pull == (if token.is_zero() {
                        None
                    } else {
                        Some(Transfer::In { asset: token, from: caller, amount: (total + fee) as u128 })
                    })
                    &&& created(
                        old(self),
                        final(self),
                        id,
                        caller,
                        now,
                        beneficiary,
                        arbiters,
                        required_confirmations,
                        milestone_amounts@,
                        milestone_descriptions@,
                        token,
                        duration,
                        project_title,
                        project_description,
                    )
                },
            },
    {
        if let Err(err) = self.when_not_paused() {
            return Err(err);
        }
        if let Err(err) = self.when_job_creation_not_paused() {
            return Err(err);
        }
        if !token.is_zero() && !self.whitelisted_tokens.get_or(token, false) {
            return Err(Error::TokenNotWhitelisted);
        }
        if arbiters.len() == 0 || arbiters.len() as u128 > self.config.max_arbiters as u128 {
            return Err(Error::TooManyArbiters);
        }
        if required_confirmations == 0 || required_confirmations as usize > arbiters.len() {
            return Err(Error::InvalidAmount);
        }
        let mut k: usize = 0;
        while k < arbiters.len()
            invariant
                k <= arbiters@.len(),
                *self == *old(self),
                forall|q: int| 0 <= q < k ==> self.arbiter_authorized(#[trigger] arbiters@[q]),
            decreases arbiters@.len() - k,
        {
            if !self.authorized_arbiters.get_or(arbiters[k], false) {
                assert(!self.arbiter_authorized(arbiters@[k as int]));
                return Err(Error::ArbiterNotAuthorized);
            }
            k = k + 1;
        }
        if !beneficiary.is_zero() && beneficiary == caller {
            return Err(Error::BeneficiaryEqualsDepositor);
        }
        if duration < self.config.min_duration || duration > self.config.max_duration {
            return Err(Error::InvalidDuration);
        }
        let count = milestone_amounts.len();
        if count == 0 {
            return Err(Error::EmptyMilestones);
        }
        if count != milestone_descriptions.len() {
            return Err(Error::MilestoneCountMismatch);
        }
        if count as u128 > self.config.max_milestones as u128 {
            return Err(Error::TooManyMilestones);
        }
        let mut k: usize = 0;
        while k < count
            invariant
                count == milestone_amounts@.len(),
                k <= count,
                *self == *old(self),
                forall|q: int| 0 <= q < k ==> #[trigger] milestone_amounts@[q] != 0,
            decreases count - k,
        {
            if milestone_amounts[k] == 0 {
                assert(milestone_amounts@[k as int] == 0);
                return Err(Error::ZeroMilestoneAmount);
            }
            k = k + 1;
        }
        if project_title.as_str().is_empty() {
            return Err(Error::EmptyProjectTitle);
        }
        // Sum the amounts, noting whether the sum leaves u128.
        let mut total: u128 = 0;
        let mut overflow = false;
        let mut k: usize = 0;
        while k < count
            invariant
                count == milestone_amounts@.len(),
                k <= count,
                *self == *old(self),
                !overflow ==> total == sum_seq(milestone_amounts@.take(k as int)),
                overflow ==> sum_seq(milestone_amounts@.take(k as int)) > u128::MAX,
            decreases count - k,
        {
            proof {
                assert(milestone_amounts@.take(k + 1) =~= milestone_amounts@.take(k as int).push(
                    milestone_amounts@[k as int],
                ));
                lemma_sum_seq_push(milestone_amounts@.take(k as int), milestone_amounts@[k as int]);
            }
            if !overflow {
                if total > u128::MAX - milestone_amounts[k] {
                    overflow = true;
                } else {
                    total = total + milestone_amounts[k];
                }
            }
            k = k + 1;
        }
        proof {
            assert(milestone_amounts@.take(count as int) =~= milestone_amounts@);
        }
        let bp = self.platform_fee_bp;
        if overflow {
            return Err(Error::ArithmeticOverflow);
        }
        if bp > 0 && total > u128::MAX / (bp as u128) {
            proof {
                assert(total * bp > u128::MAX) by (nonlinear_arith)
                    requires
                        bp > 0,
                        total > u128::MAX / (bp as u128),
                ;
            }
            return Err(Error::ArithmeticOverflow);
        }
        proof {
            assert(total * bp <= u128::MAX) by (nonlinear_arith)
                requires
                    bp == 0 || total <= u128::MAX / (bp as u128),
            ;
        }
        let fee = total * (bp as u128) / 10000;
        let reserve = self.escrowed_amount.get_or(token, 0);
        if fee > u128::MAX - total || reserve > u128::MAX - total || now > u64::MAX - duration
            || self.escrows.len() as u128 + 1 >= u64::MAX as u128 {
            return Err(Error::ArithmeticOverflow);
        }
        let due = total + fee;
        if token.is_zero() && attached_value != due {
            return Err(Error::ValueMismatch);
        }
        // Build the milestones.
        let mut milestones: Vec<Milestone> = Vec::new();
        let mut k: usize = 0;
        while k < count
            invariant
                count == milestone_amounts@.len(),
                count == milestone_descriptions@.len(),
                k <= count,
                *self == *old(self),
                milestones@.len() == k,
                forall|q: int| 0 <= q < count ==> #[trigger] milestone_amounts@[q] != 0,
                sum_amounts(milestones@) == sum_seq(milestone_amounts@.take(k as int)),
                settled_amounts(milestones@) == 0,
                forall|q: int| 0 <= q < k ==> {
                    let m = #[trigger] milestones@[q];
                    &&& m.description == milestone_descriptions@[q]
                    &&& m.amount == milestone_amounts@[q]
                    &&& m.status == MilestoneStatus::NotStarted
                    &&& m.submitted_at == 0 && m.approved_at == 0 && m.disputed_at == 0
                    &&& m.disputed_by.is_zero()
                    &&& m.dispute_reason@.len() == 0
                },
            decreases count - k,
        {
            let m = Milestone {
                description: milestone_descriptions[k].clone(),
                amount: milestone_amounts[k],
                status: MilestoneStatus::NotStarted,
                submitted_at: 0,
                approved_at: 0,
                disputed_at: 0,
                disputed_by: Address::zero(),
                dispute_reason: String::new(),
            };
            proof {
                assert(milestone_amounts@.take(k + 1) =~= milestone_amounts@.take(k as int).push(
                    milestone_amounts@[k as int],
                ));
                lemma_sum_seq_push(milestone_amounts@.take(k as int), milestone_amounts@[k as int]);
                assert(milestones@.push(m).drop_last() =~= milestones@);
            }
            milestones.push(m);
            k = k + 1;
        }
        let id = self.escrows.len() as u64 + 1;
        let open = beneficiary.is_zero();
        let e = Escrow {
            depositor: caller,
            beneficiary,
            arbiters,
            required_confirmations,
            token,
            total_amount: total,
            paid_amount: 0,
            platform_fee: fee,
            deadline: now + duration,
            status: EscrowStatus::Pending,
            work_started: false,
            created_at: now,
            is_open_job: open,
            project_title,
            project_description,
            milestones,
            applications: Vec::new(),
        };
        proof {
            assert(milestone_amounts@.take(count as int) =~= milestone_amounts@);
            assert(milestone_amounts@[0] != 0);
            assert(e.milestones@[0].amount > 0);
            lemma_sum_positive(e.milestones@);
            assert(escrow_wf(e, self.config));
        }
        self.escrows.push(e);
        self.escrowed_amount.set(token, reserve + total);
        self.user_escrows.push((caller, id));
        if !open {
            self.user_escrows.push((beneficiary, id));
        }
        proof {
            assert forall|a: Address| #[trigger] self.reserve(a) == outstanding(self.escrows@, a) by {
                assert(old(self).reserve(a) == outstanding(old(self).escrows@, a));
                lemma_outstanding_push(old(self).escrows@, e, a);
                assert(self.escrows@ =~= old(self).escrows@.push(e));
            }
            assert(self.escrows@.last() == e);
        }
        let pull = if token.is_zero() {
            None
        } else {
            Some(Transfer::In { asset: token, from: caller, amount: due })
        };
        Ok((id, pull))
    }

    /// Creates a native-currency escrow paid by `attached_value`; see
    /// [`SecureFlow::create_escrow`].
    pub fn create_escrow_native(
        &mut self,
        caller: Address,
        now: u64,
        attached_value: u128,
        beneficiary: Address,
        arbiters: Vec<Address>,
        required_confirmations: u8,
        milestone_amounts: Vec<u128>,
        milestone_descriptions: Vec<String>,
        duration: u64,
        project_title: String,
        project_description: String,
    ) -> (r: Result<u64, Error>)
        requires
            old(self).wf(),
        ensures
            final(self).wf(),
            milestones_evolve(old(self), final(self)),
            match r {
                Err(err) => old(self).create_error(
                    caller,
                    now,
                    attached_value,
                    beneficiary,
                    arbiters@,
                    required_confirmations,
                    milestone_amounts@,
                    milestone_descriptions@.len(),
                    Address::zero(),
                    duration,
                    project_title@,
                ) == Some(err) && *final(self) == *old(self),
                Ok(id) => {
                    &&& old(self).create_error(
                        caller,
                        now,
                        attached_value,
                        beneficiary,
                        arbiters@,
                        required_confirmations,
                        milestone_amounts@,
                        milestone_descriptions@.len(),
                        Address::zero(),
                        duration,
                        project_title@,
                    ) is None
                    &&& created(
                        old(self),
                        final(self),
                        id,
                        caller,
                        now,
                        beneficiary,
                        arbiters,
                        required_confirmations,
                        milestone_amounts@,
                        milestone_descriptions@,
                        Address::zero(),
                        duration,
                        project_title,
                        project_description,
                    )
                },
            },
    {
        match self.create_escrow(
            caller,
            now,
            attached_value,
            beneficiary,
            arbiters,
            required_confirmations,
            milestone_amounts,
            milestone_descriptions,
            Address::zero(),
            duration,
            project_title,
            project_description,
        ) {
            Ok((id, _)) => Ok(id),
            Err(err) => Err(err),
        }
    }
}

/// Milestones with positive amounts sum to at least the first amount.
proof fn lemma_sum_positive(ms: Seq<Milestone>)
    requires
        ms.len() > 0,
        forall|k: int| 0 <= k < ms.len() ==> #[trigger] ms[k].amount > 0,
    ensures
        sum_amounts(ms) > 0,
    decreases ms.len(),
{
    assert(ms[ms.len() - 1].amount > 0);
    if ms.len() > 1 {
        assert forall|k: int| 0 <= k < ms.drop_last().len() implies #[trigger] ms.drop_last()[k].amount
            > 0 by {
            assert(ms.drop_last()[k] == ms[k]);
        }
        lemma_sum_positive(ms.drop_last());
    } else {
        assert(ms.drop_last().len() == 0);
        assert(sum_amounts(ms.drop_last()) == 0);
    }
}

} // verus!
