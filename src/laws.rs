//! Laws that hold of every ledger reachable through the operations: each
//! operation requires and preserves `SecureFlow::wf`, and these lemmas read the
//! laws off that invariant.

use vstd::prelude::*;
use crate::ledger::{escrow_wf, lemma_paid_le_total, SecureFlow};
use crate::model::outstanding;
use crate::types::Address;

verus! {

/// For every asset, the reserve counter equals the sum of
/// `total_amount - paid_amount` over all live (non-terminal) escrows in that
/// asset.
pub proof fn lemma_reserve_matches_outstanding(l: &SecureFlow, asset: Address)
    requires
        l.wf(),
    ensures
        l.reserve(asset) == outstanding(l.escrows@, asset),
{
}

/// Every escrow is paid no more than its total, and it is released exactly
/// when it is paid in full.
pub proof fn lemma_paid_within_total(l: &SecureFlow, id: u64)
    requires
        l.wf(),
        l.has_escrow(id),
    ensures
        l.escrow(id).paid_amount <= l.escrow(id).total_amount,
        (l.escrow(id).status is Released) <==> l.escrow(id).paid_amount == l.escrow(id).total_amount,
{
    lemma_paid_le_total(l);
    assert(l.escrow(id) == l.escrows@[id - 1]);
}

/// No escrow holds more applications than the configured maximum, nor two
/// from the same freelancer.
pub proof fn lemma_applications_bounded(l: &SecureFlow, id: u64)
    requires
        l.wf(),
        l.has_escrow(id),
    ensures
        l.escrow(id).applications@.len() <= l.config.max_applications,
        forall|k1: int, k2: int|
            0 <= k1 < k2 < l.escrow(id).applications@.len() ==> (#[trigger] l.escrow(id).applications@[k1]).freelancer
                != (#[trigger] l.escrow(id).applications@[k2]).freelancer,
{
    assert(escrow_wf(l.escrows@[id - 1], l.config));
}

} // verus!
