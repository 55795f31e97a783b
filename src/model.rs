//! The records that the ledger keeps, and the sums over them that its
//! invariants speak of.

use vstd::prelude::*;
use crate::types::{Address, EscrowStatus, MilestoneStatus};

verus! {

/// Fixed limits and reward sizes of a ledger.
#[derive(Clone, Copy, Debug, PartialEq, Eq, Structural)]
pub struct Config {
    pub min_duration: u64,
    pub max_duration: u64,
    pub dispute_period: u64,
    pub emergency_refund_delay: u64,
    pub max_extension: u64,
    pub max_platform_fee_bp: u64,
    pub max_arbiters: u64,
    pub max_milestones: u64,
    pub max_applications: u64,
    pub reputation_per_milestone: u128,
    pub reputation_per_escrow: u128,
    pub min_rep_eligible_escrow_value: u128,
}

/// The standard limits: durations from one hour to 365 days, a seven-day
/// dispute window, a thirty-day emergency grace period and extension cap,
/// fees up to 10%, at most 5 arbiters, 20 milestones and 50 applications.
pub open spec fn standard_config() -> Config {
    Config {
        min_duration: 3600,
        max_duration: 31536000,
        dispute_period: 604800,
        emergency_refund_delay: 2592000,
        max_extension: 2592000,
        max_platform_fee_bp: 1000,
        max_arbiters: 5,
        max_milestones: 20,
        max_applications: 50,
        reputation_per_milestone: 10,
        reputation_per_escrow: 25,
        min_rep_eligible_escrow_value: 10_000_000_000_000_000,
    }
}

impl Config {
    pub fn standard() -> (r: Config)
        ensures
            r == standard_config(),
    {
        Config {
            min_duration: 3600,
            max_duration: 31536000,
            dispute_period: 604800,
            emergency_refund_delay: 2592000,
            max_extension: 2592000,
            max_platform_fee_bp: 1000,
            max_arbiters: 5,
            max_milestones: 20,
            max_applications: 50,
            reputation_per_milestone: 10,
            reputation_per_escrow: 25,
            min_rep_eligible_escrow_value: 10_000_000_000_000_000,
        }
    }
}

/// A fixed-amount deliverable of an escrow.
#[derive(Debug)]
pub struct Milestone {
    pub description: String,
    pub amount: u128,
    pub status: MilestoneStatus,
    pub submitted_at: u64,
    pub approved_at: u64,
    pub disputed_at: u64,
    pub disputed_by: Address,
    pub dispute_reason: String,
}

/// A freelancer's application to an open job.
#[derive(Debug)]
pub struct Application {
    pub freelancer: Address,
    pub cover_letter: String,
    pub proposed_timeline: u64,
    pub applied_at: u64,
    pub exists: bool,
}

/// One funded agreement between a depositor and a beneficiary.
///
/// `required_confirmations` is recorded but no operation consults it: a
/// dispute is settled by any one of the depositor, the beneficiary or a
/// registered arbiter, not by a quorum.
///
/// `paid_amount` counts everything that has left the escrow for a settled
/// milestone, whichever party received it; `total_amount - paid_amount` is
/// the balance still held for it.
#[derive(Debug)]
pub struct Escrow {
    pub depositor: Address,
    pub beneficiary: Address,
    pub arbiters: Vec<Address>,
    pub required_confirmations: u8,
    pub token: Address,
    pub total_amount: u128,
    pub paid_amount: u128,
    pub platform_fee: u128,
    pub deadline: u64,
    pub status: EscrowStatus,
    pub work_started: bool,
    pub created_at: u64,
    pub is_open_job: bool,
    pub project_title: String,
    pub project_description: String,
    pub milestones: Vec<Milestone>,
    pub applications: Vec<Application>,
}

/// A movement of value that the host performs once an operation has
/// committed: `In` pulls from a payer into custody, `Out` pays a recipient.
#[derive(Clone, Copy, Debug, PartialEq, Eq, Structural)]
pub enum Transfer {
    In { asset: Address, from: Address, amount: u128 },
    Out { asset: Address, to: Address, amount: u128 },
}

/// A milestone whose funds have left the escrow.
pub open spec fn is_settled(s: MilestoneStatus) -> bool {
    s is Approved || s is Resolved
}

/// The sum of all milestone amounts.
pub open spec fn sum_amounts(ms: Seq<Milestone>) -> int
    decreases ms.len(),
{
    if ms.len() == 0 {
        0
    } else {
        sum_amounts(ms.drop_last()) + ms.last().amount
    }
}

/// The sum of the amounts of settled milestones.
pub open spec fn settled_amounts(ms: Seq<Milestone>) -> int
    decreases ms.len(),
{
    if ms.len() == 0 {
        0
    } else {
        settled_amounts(ms.drop_last()) + (if is_settled(ms.last().status) {
            ms.last().amount as int
        } else {
            0
        })
    }
}

/// The sum of a sequence of amounts.
pub open spec fn sum_seq(s: Seq<u128>) -> int
    decreases s.len(),
{
    if s.len() == 0 {
        0
    } else {
        sum_seq(s.drop_last()) + s.last()
    }
}

/// What escrow `e` still holds in asset `a`: its unpaid balance while it is
/// live, nothing once it is terminal or in another asset.
pub open spec fn held_by(e: Escrow, a: Address) -> int {
    if e.token == a && !e.status.is_terminal() {
        e.total_amount - e.paid_amount
    } else {
        0
    }
}

/// What all escrows in `es` still hold in asset `a`.
pub open spec fn outstanding(es: Seq<Escrow>, a: Address) -> int
    decreases es.len(),
{
    if es.len() == 0 {
        0
    } else {
        outstanding(es.drop_last(), a) + held_by(es.last(), a)
    }
}

pub proof fn lemma_settled_le_sum(ms: Seq<Milestone>)
    ensures
        0 <= settled_amounts(ms) <= sum_amounts(ms),
    decreases ms.len(),
{
    if ms.len() > 0 {
        lemma_settled_le_sum(ms.drop_last());
    }
}

pub proof fn lemma_sums_update(ms: Seq<Milestone>, j: int, m: Milestone)
    requires
        0 <= j < ms.len(),
    ensures
        sum_amounts(ms.update(j, m)) == sum_amounts(ms) - ms[j].amount + m.amount,
        settled_amounts(ms.update(j, m)) == settled_amounts(ms) - (if is_settled(ms[j].status) {
            ms[j].amount as int
        } else {
            0
        }) + (if is_settled(m.status) {
            m.amount as int
        } else {
            0
        }),
    decreases ms.len(),
{
    let t = ms.update(j, m);
    if j == ms.len() - 1 {
        assert(t.drop_last() =~= ms.drop_last());
    } else {
        assert(t.drop_last() =~= ms.drop_last().update(j, m));
        lemma_sums_update(ms.drop_last(), j, m);
    }
}

pub proof fn lemma_sum_seq_push(s: Seq<u128>, x: u128)
    ensures
        sum_seq(s.push(x)) == sum_seq(s) + x,
{
    assert(s.push(x).drop_last() =~= s);
}

pub proof fn lemma_outstanding_push(es: Seq<Escrow>, e: Escrow, a: Address)
    ensures
        outstanding(es.push(e), a) == outstanding(es, a) + held_by(e, a),
{
    assert(es.push(e).drop_last() =~= es);
}

pub proof fn lemma_outstanding_update(es: Seq<Escrow>, i: int, e: Escrow, a: Address)
    requires
        0 <= i < es.len(),
    ensures
        outstanding(es.update(i, e), a) == outstanding(es, a) - held_by(es[i], a) + held_by(e, a),
    decreases es.len(),
{
    let t = es.update(i, e);
    if i == es.len() - 1 {
        assert(t.drop_last() =~= es.drop_last());
    } else {
        assert(t.drop_last() =~= es.drop_last().update(i, e));
        lemma_outstanding_update(es.drop_last(), i, e, a);
    }
}

/// With every escrow paid no more than its total, the escrows jointly hold at
/// least what any one of them holds.
pub proof fn lemma_outstanding_covers(es: Seq<Escrow>, i: int, a: Address)
    requires
        0 <= i < es.len(),
        forall|k: int| 0 <= k < es.len() ==> es[k].paid_amount <= es[k].total_amount,
    ensures
        outstanding(es, a) >= held_by(es[i], a) >= 0,
    decreases es.len(),
{
    lemma_outstanding_nonneg(es.drop_last(), a);
    if i < es.len() - 1 {
        lemma_outstanding_covers(es.drop_last(), i, a);
    }
}

pub proof fn lemma_outstanding_nonneg(es: Seq<Escrow>, a: Address)
    requires
        forall|k: int| 0 <= k < es.len() ==> es[k].paid_amount <= es[k].total_amount,
    ensures
        outstanding(es, a) >= 0,
    decreases es.len(),
{
    if es.len() > 0 {
        lemma_outstanding_nonneg(es.drop_last(), a);
    }
}

} // verus!
