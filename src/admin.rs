//! Owner and fee-collector operations.

use vstd::prelude::*;
use crate::errors::Error;
use crate::ledger::{lemma_wf_frame, SecureFlow};
use crate::model::Transfer;
use crate::table::value_or;
use crate::types::Address;

verus! {

impl SecureFlow {
    /// The owner sets the platform fee rate, at most the configured maximum.
    pub fn set_platform_fee_bp(&mut self, caller: Address, bp: u64) -> (r: Result<(), Error>)
        requires
            old(self).wf(),
        ensures
            final(self).wf(),
            caller != old(self).owner ==> r == Err::<(), Error>(Error::Unauthorized) && *final(self) == *old(self),
            caller == old(self).owner && bp > old(self).config.max_platform_fee_bp ==> r == Err::<(), Error>(
                Error::InvalidAmount,
            ) && *final(self) == *old(self),
            caller == old(self).owner && bp <= old(self).config.max_platform_fee_bp ==> r == Ok::<(), Error>(())
                && *final(self) == (SecureFlow { platform_fee_bp: bp, ..*old(self) }),
    {
        if let Err(err) = self.only_owner(caller) {
            return Err(err);
        }
        if bp > self.config.max_platform_fee_bp {
            return Err(Error::InvalidAmount);
        }
        self.platform_fee_bp = bp;
        proof {
            lemma_wf_frame(old(self), self);
        }
        Ok(())
    }

    /// The owner names a new, nonzero fee collector.
    pub fn set_fee_collector(&mut self, caller: Address, collector: Address) -> (r: Result<(), Error>)
        requires
            old(self).wf(),
        ensures
            final(self).wf(),
            caller != old(self).owner ==> r == Err::<(), Error>(Error::Unauthorized) && *final(self) == *old(self),
            caller == old(self).owner && collector.is_zero() ==> r == Err::<(), Error>(Error::InvalidAmount)
                && *final(self) == *old(self),
            caller == old(self).owner && !collector.is_zero() ==> r == Ok::<(), Error>(())
                && *final(self) == (SecureFlow { fee_collector: collector, ..*old(self) }),
    {
        if let Err(err) = self.only_owner(caller) {
            return Err(err);
        }
        if collector.is_zero() {
            return Err(Error::InvalidAmount);
        }
        self.fee_collector = collector;
        proof {
            lemma_wf_frame(old(self), self);
        }
        Ok(())
    }

    /// The owner admits a nonzero token as an escrow asset.
    pub fn whitelist_token(&mut self, caller: Address, token: Address) -> (r: Result<(), Error>)
        requires
            old(self).wf(),
        ensures
            final(self).wf(),
            caller != old(self).owner ==> r == Err::<(), Error>(Error::Unauthorized) && *final(self) == *old(self),
            caller == old(self).owner && token.is_zero() ==> r == Err::<(), Error>(Error::InvalidAmount)
                && *final(self) == *old(self),
            caller == old(self).owner && !token.is_zero() ==> r == Ok::<(), Error>(())
                && final(self).whitelisted_tokens@ == old(self).whitelisted_tokens@.insert(token, true)
                && *final(self) == (SecureFlow { whitelisted_tokens: final(self).whitelisted_tokens, ..*old(self) }),
    {
        if let Err(err) = self.only_owner(caller) {
            return Err(err);
        }
        if token.is_zero() {
            return Err(Error::InvalidAmount);
        }
        self.whitelisted_tokens.set(token, true);
        proof {
            lemma_wf_frame(old(self), self);
        }
        Ok(())
    }

    /// The owner withdraws a token from the whitelist; existing escrows in it
    /// are unaffected.
    pub fn blacklist_token(&mut self, caller: Address, token: Address) -> (r: Result<(), Error>)
        requires
            old(self).wf(),
        ensures
            final(self).wf(),
            caller != old(self).owner ==> r == Err::<(), Error>(Error::Unauthorized) && *final(self) == *old(self),
            caller == old(self).owner ==> r == Ok::<(), Error>(())
                && final(self).whitelisted_tokens@ == old(self).whitelisted_tokens@.insert(token, false)
                && *final(self) == (SecureFlow { whitelisted_tokens: final(self).whitelisted_tokens, ..*old(self) }),
    {
        if let Err(err) = self.only_owner(caller) {
            return Err(err);
        }
        self.whitelisted_tokens.set(token, false);
        proof {
            lemma_wf_frame(old(self), self);
        }
        Ok(())
    }

    /// The owner authorizes a nonzero address to serve as an arbiter.
    pub fn authorize_arbiter(&mut self, caller: Address, arbiter: Address) -> (r: Result<(), Error>)
        requires
            old(self).wf(),
        ensures
            final(self).wf(),
            caller != old(self).owner ==> r == Err::<(), Error>(Error::Unauthorized) && *final(self) == *old(self),
            caller == old(self).owner && arbiter.is_zero() ==> r == Err::<(), Error>(Error::InvalidAmount)
                && *final(self) == *old(self),
            caller == old(self).owner && !arbiter.is_zero() ==> r == Ok::<(), Error>(())
                && final(self).authorized_arbiters@ == old(self).authorized_arbiters@.insert(arbiter, true)
                && *final(self) == (SecureFlow { authorized_arbiters: final(self).authorized_arbiters, ..*old(self) }),
    {
        if let Err(err) = self.only_owner(caller) {
            return Err(err);
        }
        if arbiter.is_zero() {
            return Err(Error::InvalidAmount);
        }
        self.authorized_arbiters.set(arbiter, true);
        proof {
            lemma_wf_frame(old(self), self);
        }
        Ok(())
    }

    /// The owner revokes an arbiter for future escrows.
    pub fn revoke_arbiter(&mut self, caller: Address, arbiter: Address) -> (r: Result<(), Error>)
        requires
            old(self).wf(),
        ensures
            final(self).wf(),
            caller != old(self).owner ==> r == Err::<(), Error>(Error::Unauthorized) && *final(self) == *old(self),
            caller == old(self).owner ==> r == Ok::<(), Error>(())
                && final(self).authorized_arbiters@ == old(self).authorized_arbiters@.insert(arbiter, false)
                && *final(self) == (SecureFlow { authorized_arbiters: final(self).authorized_arbiters, ..*old(self) }),
    {
        if let Err(err) = self.only_owner(caller) {
            return Err(err);
        }
        self.authorized_arbiters.set(arbiter, false);
        proof {
            lemma_wf_frame(old(self), self);
        }
        Ok(())
    }

    /// The owner stops the creation of new escrows.
    pub fn pause_job_creation(&mut self, caller: Address) -> (r: Result<(), Error>)
        requires
            old(self).wf(),
        ensures
            final(self).wf(),
            caller != old(self).owner ==> r == Err::<(), Error>(Error::Unauthorized) && *final(self) == *old(self),
            caller == old(self).owner ==> r == Ok::<(), Error>(())
                && *final(self) == (SecureFlow { job_creation_paused: true, ..*old(self) }),
    {
        self.set_job_creation_paused(caller, true)
    }

    /// The owner allows the creation of new escrows again.
    pub fn unpause_job_creation(&mut self, caller: Address) -> (r: Result<(), Error>)
        requires
            old(self).wf(),
        ensures
            final(self).wf(),
            caller != old(self).owner ==> r == Err::<(), Error>(Error::Unauthorized) && *final(self) == *old(self),
            caller == old(self).owner ==> r == Ok::<(), Error>(())
                && *final(self) == (SecureFlow { job_creation_paused: false, ..*old(self) }),
    {
        self.set_job_creation_paused(caller, false)
    }

    fn set_job_creation_paused(&mut self, caller: Address, on: bool) -> (r: Result<(), Error>)
        requires
            old(self).wf(),
        ensures
            final(self).wf(),
            caller != old(self).owner ==> r == Err::<(), Error>(Error::Unauthorized) && *final(self) == *old(self),
            caller == old(self).owner ==> r == Ok::<(), Error>(())
                && *final(self) == (SecureFlow { job_creation_paused: on, ..*old(self) }),
    {
        if let Err(err) = self.only_owner(caller) {
            return Err(err);
        }
        self.job_creation_paused = on;
        proof {
            lemma_wf_frame(old(self), self);
        }
        Ok(())
    }

    /// The owner suspends every escrow operation.
    pub fn pause(&mut self, caller: Address) -> (r: Result<(), Error>)
        requires
            old(self).wf(),
        ensures
            final(self).wf(),
            caller != old(self).owner ==> r == Err::<(), Error>(Error::Unauthorized) && *final(self) == *old(self),
            caller == old(self).owner ==> r == Ok::<(), Error>(())
                && *final(self) == (SecureFlow { paused: true, ..*old(self) }),
    {
        self.set_paused(caller, true)
    }

    /// The owner resumes escrow operations.
    pub fn unpause(&mut self, caller: Address) -> (r: Result<(), Error>)
        requires
            old(self).wf(),
        ensures
            final(self).wf(),
            caller != old(self).owner ==> r == Err::<(), Error>(Error::Unauthorized) && *final(self) == *old(self),
            caller == old(self).owner ==> r == Ok::<(), Error>(())
                && *final(self) == (SecureFlow { paused: false, ..*old(self) }),
    {
        self.set_paused(caller, false)
    }

    fn set_paused(&mut self, caller: Address, on: bool) -> (r: Result<(), Error>)
        requires
            old(self).wf(),
        ensures
            final(self).wf(),
            caller != old(self).owner ==> r == Err::<(), Error>(Error::Unauthorized) && *final(self) == *old(self),
            caller == old(self).owner ==> r == Ok::<(), Error>(())
                && *final(self) == (SecureFlow { paused: on, ..*old(self) }),
    {
        if let Err(err) = self.only_owner(caller) {
            return Err(err);
        }
        self.paused = on;
        proof {
            lemma_wf_frame(old(self), self);
        }
        Ok(())
    }

    /// The fee collector or the owner takes every accrued fee in `token`;
    /// the returned transfer pays it to the caller.
    pub fn withdraw_fees(&mut self, caller: Address, token: Address) -> (r: Result<Transfer, Error>)
        requires
            old(self).wf(),
        ensures
            final(self).wf(),
            ({
                let amount = value_or(old(self).total_fees_by_token@, token, 0u128);
                if caller != old(self).fee_collector && caller != old(self).owner {
                    r == Err::<Transfer, Error>(Error::Unauthorized) && *final(self) == *old(self)
                } else if amount == 0 {
                    r == Err::<Transfer, Error>(Error::NothingToRefund) && *final(self) == *old(self)
                } else {
                    &&& r == Ok::<Transfer, Error>(Transfer::Out { asset: token, to: caller, amount })
                    &&& final(self).total_fees_by_token@ == old(self).total_fees_by_token@.insert(token, 0)
                    &&& *final(self) == (SecureFlow {
                        total_fees_by_token: final(self).total_fees_by_token,
                        ..*old(self)
                    })
                }
            }),
    {
        if caller != self.fee_collector && caller != self.owner {
            return Err(Error::Unauthorized);
        }
        let amount = self.total_fees_by_token.get_or(token, 0);
        if amount == 0 {
            return Err(Error::NothingToRefund);
        }
        self.total_fees_by_token.set(token, 0);
        proof {
            lemma_wf_frame(old(self), self);
        }
        Ok(Transfer::Out { asset: token, to: caller, amount })
    }

    /// Why `emergency_withdraw` refuses, if it does.
    pub open spec fn emergency_withdraw_error(&self, caller: Address, token: Address, amount: u128, balance: u128) -> Option<Error> {
        let reserved = self.reserve(token) + value_or(self.total_fees_by_token@, token, 0u128);
        if caller != self.owner {
            Some(Error::Unauthorized)
        } else if amount == 0 {
            Some(Error::InvalidAmount)
        } else if balance <= reserved {
            Some(Error::NothingToRefund)
        } else if amount > balance - reserved {
            Some(Error::InvalidAmount)
        } else {
            None
        }
    }

    /// The owner recovers `amount` of `token` held beyond what escrows and
    /// accrued fees claim, given the contract's current `balance` of it.
    /// The ledger itself does not change.
    pub fn emergency_withdraw(&self, caller: Address, token: Address, amount: u128, balance: u128) -> (r: Result<Transfer, Error>)
        ensures
            match r {
                Err(err) => self.emergency_withdraw_error(caller, token, amount, balance) == Some(err),
                Ok(t) => self.emergency_withdraw_error(caller, token, amount, balance) is None
                    && t == Transfer::Out { asset: token, to: self.owner, amount },
            },
    {
        if let Err(err) = self.only_owner(caller) {
            return Err(err);
        }
        if amount == 0 {
            return Err(Error::InvalidAmount);
        }
        let held = self.escrowed_amount.get_or(token, 0);
        let fees = self.total_fees_by_token.get_or(token, 0);
        if balance <= held || balance - held <= fees {
            return Err(Error::NothingToRefund);
        }
        if amount > balance - held - fees {
            return Err(Error::InvalidAmount);
        }
        Ok(Transfer::Out { asset: token, to: self.owner, amount })
    }
}

} // verus!
