use vstd::prelude::*;

use crate::authority::{authority_seeds, derives, promise_seeds, verify_authority, verify_promise_address};
use crate::error::ErrorCode;
use crate::pubkey::{canonical_address, Pubkey};
use crate::token::{TokenAccount, Transfer};
use crate::treasury::{Treasury, TreasuryState};

verus! {

/// `a - b`, or zero where `b` is larger.
pub open spec fn sat_sub(a: int, b: int) -> int {
    if a >= b {
        a - b
    } else {
        0
    }
}

/// `total` moved from `old_part` to `new_part`: up by the difference, or
/// down by it and no lower than zero.
pub open spec fn shifted(total: int, old_part: int, new_part: int) -> int {
    if new_part >= old_part {
        total + (new_part - old_part)
    } else {
        sat_sub(total, old_part - new_part)
    }
}

/// Where a promise record stands in its life. It is opened once; once
/// cancelled it stays closed.
#[derive(Debug, Clone, Copy, PartialEq, Eq, Structural)]
pub enum PromiseState {
    Unopened,
    Open,
    Closed,
}

/// The entitlement of one beneficiary in one treasury.
#[derive(Debug, Clone, Copy)]
pub struct Promise {
    pub state: PromiseState,
    /// The beneficiary.
    pub target_authority: Pubkey,
    /// The treasury it draws on.
    pub treasury_account: Pubkey,
    /// Everything ever granted.
    pub total_amount: u64,
    /// What is granted and not yet paid out.
    pub non_claimed_amount: u64,
}

impl Promise {
    pub open spec fn wf(&self) -> bool {
        self.non_claimed_amount <= self.total_amount
    }

    /// What was already paid out.
    pub open spec fn claimed(&self) -> int {
        self.total_amount - self.non_claimed_amount
    }
}

/// The accounts that opening a promise reads and writes.
#[derive(Debug, Clone, Copy)]
pub struct InitPromise {
    pub treasury_key: Pubkey,
    pub treasury_account: Treasury,
    /// The signer.
    pub admin_authority: Pubkey,
    pub promise_key: Pubkey,
    pub promise_account: Promise,
    pub token_store: Pubkey,
}

impl InitPromise {
    /// Why opening a promise for `target_authority` is refused, if it is.
    pub open spec fn refusal(&self, program_id: Seq<u8>, target_authority: Pubkey, bump: u8) -> Option<ErrorCode> {
        let t = self.treasury_account;
        if self.promise_account.state != PromiseState::Unopened {
            Some(ErrorCode::PromiseAlreadyInitialized)
        } else if t.state != TreasuryState::Open {
            Some(ErrorCode::TreasuryNotOpen)
        } else if t.admin_authority@ != self.admin_authority@ {
            Some(ErrorCode::AdminAuthorityDoesNotMatch)
        } else if t.token_store@ != self.token_store@ {
            Some(ErrorCode::TokenStoreDoesNotMatch)
        } else if canonical_address(promise_seeds(self.treasury_key@, target_authority@), program_id)
            != Some((self.promise_key@, bump)) {
            Some(ErrorCode::PromiseAddressDoesNotMatch)
        } else if t.promise_count == u64::MAX {
            Some(ErrorCode::AmountOverflow)
        } else {
            None
        }
    }

    /// How `process` with these arguments relates the accounts before
    /// (`self`) and after (`after`) to its result `r`.
    pub open spec fn outcome(
        &self,
        after: Self,
        program_id: Seq<u8>,
        target_authority: Pubkey,
        bump: u8,
        r: Result<(), ErrorCode>,
    ) -> bool {
        match self.refusal(program_id, target_authority, bump) {
            Some(e) => r == Err::<(), ErrorCode>(e) && after == *self,
            None => {
                &&& r is Ok
                &&& after.promise_account == (Promise {
                    state: PromiseState::Open,
                    target_authority,
                    treasury_account: self.treasury_key,
                    total_amount: 0,
                    non_claimed_amount: 0,
                })
                &&& after.treasury_account == (Treasury {
                    promise_count: (self.treasury_account.promise_count + 1) as u64,
                    ..self.treasury_account
                })
                &&& after.treasury_key == self.treasury_key
                &&& after.admin_authority == self.admin_authority
                &&& after.promise_key == self.promise_key
                &&& after.token_store == self.token_store
            },
        }
    }

    /// Opens an empty promise for `target_authority` in an open treasury, in
    /// a record never used before, at the canonical address derived from the
    /// treasury and the beneficiary, so that each beneficiary has at most
    /// one promise per treasury. The treasury counts it.
    pub fn process(&mut self, program_id: &Pubkey, target_authority: Pubkey, bump: u8) -> (r: Result<(), ErrorCode>)
        ensures
            old(self).outcome(*final(self), program_id@, target_authority, bump, r),
    {
        if self.promise_account.state != PromiseState::Unopened {
            return Err(ErrorCode::PromiseAlreadyInitialized);
        }
        if self.treasury_account.state != TreasuryState::Open {
            return Err(ErrorCode::TreasuryNotOpen);
        }
        if !self.treasury_account.admin_authority.same(&self.admin_authority) {
            return Err(ErrorCode::AdminAuthorityDoesNotMatch);
        }
        if !self.treasury_account.token_store.same(&self.token_store) {
            return Err(ErrorCode::TokenStoreDoesNotMatch);
        }
        if !verify_promise_address(program_id, &self.treasury_key, &target_authority, bump, &self.promise_key) {
            return Err(ErrorCode::PromiseAddressDoesNotMatch);
        }
        let count = match self.treasury_account.promise_count.checked_add(1) {
            Some(c) => c,
            None => {
                return Err(ErrorCode::AmountOverflow);
            },
        };
        self.promise_account = Promise {
            state: PromiseState::Open,
            target_authority,
            treasury_account: self.treasury_key,
            total_amount: 0,
            non_claimed_amount: 0,
        };
        self.treasury_account.promise_count = count;
        Ok(())
    }
}

/// The accounts that resizing a promise reads and writes.
#[derive(Debug, Clone, Copy)]
pub struct SetPromiseAmount {
    pub promise_account: Promise,
    pub treasury_key: Pubkey,
    pub treasury_account: Treasury,
    pub token_store: TokenAccount,
    /// The signer.
    pub admin_authority: Pubkey,
}

impl SetPromiseAmount {
    /// The unclaimed amount of the promise once resized to `new_total`.
    pub open spec fn new_non_claimed(&self, new_total: u64) -> int {
        new_total - self.promise_account.claimed()
    }

    /// The treasury's total promised once the promise is resized.
    pub open spec fn new_total_promised(&self, new_total: u64) -> int {
        shifted(self.treasury_account.total_promised as int, self.promise_account.total_amount as int, new_total as int)
    }

    /// The treasury's total unclaimed once the promise is resized.
    pub open spec fn new_total_non_claimed(&self, new_total: u64) -> int {
        shifted(
            self.treasury_account.total_non_claimed as int,
            self.promise_account.non_claimed_amount as int,
            self.new_non_claimed(new_total),
        )
    }

    /// Why resizing to `new_total` at time `now` is refused, if it is. The
    /// gate against shrinking after the start comes first, so that it
    /// refuses whoever asks.
    pub open spec fn refusal(&self, now: i64, new_total: u64) -> Option<ErrorCode> {
        let p = self.promise_account;
        let t = self.treasury_account;
        if now >= t.start_time && new_total < p.total_amount {
            Some(ErrorCode::CanNotWithdrawPromiseAfterStart)
        } else if p.state != PromiseState::Open {
            Some(ErrorCode::PromiseNotOpen)
        } else if t.state != TreasuryState::Open {
            Some(ErrorCode::TreasuryNotOpen)
        } else if p.treasury_account@ != self.treasury_key@ {
            Some(ErrorCode::TreasuryAccountDoesNotMatch)
        } else if t.admin_authority@ != self.admin_authority@ {
            Some(ErrorCode::AdminAuthorityDoesNotMatch)
        } else if t.token_store@ != self.token_store.key@ {
            Some(ErrorCode::TokenStoreDoesNotMatch)
        } else if new_total < p.claimed() {
            Some(ErrorCode::CanNotWithdrawPromiseAfterStart)
        } else if self.new_total_promised(new_total) > u64::MAX {
            Some(ErrorCode::AmountOverflow)
        } else if self.new_total_non_claimed(new_total) > u64::MAX {
            Some(ErrorCode::AmountOverflow)
        } else if self.new_total_non_claimed(new_total) > self.token_store.amount {
            Some(ErrorCode::InsufficientPromiseFunds)
        } else {
            None
        }
    }

    /// How `process` with these arguments relates the accounts before
    /// (`self`) and after (`after`) to its result `r`.
    pub open spec fn outcome(&self, after: Self, now: i64, new_total: u64, r: Result<(), ErrorCode>) -> bool {
        match self.refusal(now, new_total) {
            Some(e) => r == Err::<(), ErrorCode>(e) && after == *self,
            None => {
                &&& r is Ok
                &&& after.promise_account == (Promise {
                    total_amount: new_total,
                    non_claimed_amount: self.new_non_claimed(new_total) as u64,
                    ..self.promise_account
                })
                &&& after.treasury_account == (Treasury {
                    total_promised: self.new_total_promised(new_total) as u64,
                    total_non_claimed: self.new_total_non_claimed(new_total) as u64,
                    ..self.treasury_account
                })
                &&& after.treasury_key == self.treasury_key
                &&& after.token_store == self.token_store
                &&& after.admin_authority == self.admin_authority
            },
        }
    }

    /// Sets the open promise's total to `new_total` at time `now`. Before the
    /// start time it may shrink or grow; from then on only grow. What was
    /// already paid out stays paid. The treasury's totals move by the
    /// change, and the custody balance must cover the new unclaimed total.
    pub fn process(&mut self, now: i64, new_total: u64) -> (r: Result<(), ErrorCode>)
        requires
            old(self).promise_account.wf(),
        ensures
            old(self).outcome(*final(self), now, new_total, r),
    {
        let p = self.promise_account;
        let t = self.treasury_account;
        if now >= t.start_time && new_total < p.total_amount {
            return Err(ErrorCode::CanNotWithdrawPromiseAfterStart);
        }
        if p.state != PromiseState::Open {
            return Err(ErrorCode::PromiseNotOpen);
        }
        if t.state != TreasuryState::Open {
            return Err(ErrorCode::TreasuryNotOpen);
        }
        if !p.treasury_account.same(&self.treasury_key) {
            return Err(ErrorCode::TreasuryAccountDoesNotMatch);
        }
        if !t.admin_authority.same(&self.admin_authority) {
            return Err(ErrorCode::AdminAuthorityDoesNotMatch);
        }
        if !t.token_store.same(&self.token_store.key) {
            return Err(ErrorCode::TokenStoreDoesNotMatch);
        }
        let claimed_amount = p.total_amount - p.non_claimed_amount;
        if new_total < claimed_amount {
            return Err(ErrorCode::CanNotWithdrawPromiseAfterStart);
        }
        let new_non_claimed = new_total - claimed_amount;
        let total_promised = if new_total >= p.total_amount {
            match t.total_promised.checked_add(new_total - p.total_amount) {
                Some(s) => s,
                None => {
                    return Err(ErrorCode::AmountOverflow);
                },
            }
        } else {
            t.total_promised.saturating_sub(p.total_amount - new_total)
        };
        let total_non_claimed = if new_non_claimed >= p.non_claimed_amount {
            match t.total_non_claimed.checked_add(new_non_claimed - p.non_claimed_amount) {
                Some(s) => s,
                None => {
                    return Err(ErrorCode::AmountOverflow);
                },
            }
        } else {
            t.total_non_claimed.saturating_sub(p.non_claimed_amount - new_non_claimed)
        };
        if total_non_claimed > self.token_store.amount {
            return Err(ErrorCode::InsufficientPromiseFunds);
        }
        self.treasury_account.total_promised = total_promised;
        self.treasury_account.total_non_claimed = total_non_claimed;
        self.promise_account.total_amount = new_total;
        self.promise_account.non_claimed_amount = new_non_claimed;
        Ok(())
    }
}

/// The accounts that a claim reads and writes.
#[derive(Debug, Clone, Copy)]
pub struct Claim {
    pub promise_account: Promise,
    pub treasury_key: Pubkey,
    pub treasury_account: Treasury,
    /// The signer.
    pub target_authority: Pubkey,
    pub token_authority: Pubkey,
    pub token_store: Pubkey,
    /// The beneficiary's receiving token account.
    pub transfer_token_to: Pubkey,
}

impl Claim {
    /// Why a claim at time `now` is refused, if it is. The start-time gate
    /// comes first, so that it refuses whoever asks.
    pub open spec fn refusal(&self, program_id: Seq<u8>, now: i64) -> Option<ErrorCode> {
        let p = self.promise_account;
        let t = self.treasury_account;
        if now < t.start_time {
            Some(ErrorCode::NonStarted)
        } else if p.state != PromiseState::Open {
            Some(ErrorCode::PromiseNotOpen)
        } else if t.state != TreasuryState::Open {
            Some(ErrorCode::TreasuryNotOpen)
        } else if p.target_authority@ != self.target_authority@ {
            Some(ErrorCode::TargetAuthorityDoesNotMatch)
        } else if p.treasury_account@ != self.treasury_key@ {
            Some(ErrorCode::TreasuryAccountDoesNotMatch)
        } else if t.token_store@ != self.token_store@ {
            Some(ErrorCode::TokenStoreDoesNotMatch)
        } else if !derives(authority_seeds(self.treasury_key@), t.token_authority_bump, program_id, self.token_authority@) {
            Some(ErrorCode::InvalidTreasuryTokenAuthorityBump)
        } else {
            None
        }
    }

    /// The payout of a successful claim.
    pub open spec fn payout(&self) -> Transfer {
        Transfer {
            from: self.token_store,
            to: self.transfer_token_to,
            authority: self.token_authority,
            amount: self.promise_account.non_claimed_amount,
        }
    }

    /// How `process` with these arguments relates the accounts before
    /// (`self`) and after (`after`) to its result `r`.
    pub open spec fn outcome(&self, after: Self, program_id: Seq<u8>, now: i64, r: Result<Transfer, ErrorCode>) -> bool {
        match self.refusal(program_id, now) {
            Some(e) => r == Err::<Transfer, ErrorCode>(e) && after == *self,
            None => {
                &&& r == Ok::<Transfer, ErrorCode>(self.payout())
                &&& after.promise_account == (Promise { non_claimed_amount: 0, ..self.promise_account })
                &&& after.treasury_account == (Treasury {
                    total_non_claimed: sat_sub(
                        self.treasury_account.total_non_claimed as int,
                        self.promise_account.non_claimed_amount as int,
                    ) as u64,
                    ..self.treasury_account
                })
                &&& after.treasury_key == self.treasury_key
                &&& after.target_authority == self.target_authority
                &&& after.token_authority == self.token_authority
                &&& after.token_store == self.token_store
                &&& after.transfer_token_to == self.transfer_token_to
            },
        }
    }

    /// Pays the beneficiary the unclaimed amount of the open promise at time
    /// `now`, not before the start time. The promise keeps its total and
    /// has nothing left unclaimed; the treasury's unclaimed total shrinks by
    /// the payout.
    pub fn process(&mut self, program_id: &Pubkey, now: i64) -> (r: Result<Transfer, ErrorCode>)
        ensures
            old(self).outcome(*final(self), program_id@, now, r),
    {
        let p = self.promise_account;
        let t = self.treasury_account;
        if now < t.start_time {
            return Err(ErrorCode::NonStarted);
        }
        if p.state != PromiseState::Open {
            return Err(ErrorCode::PromiseNotOpen);
        }
        if t.state != TreasuryState::Open {
            return Err(ErrorCode::TreasuryNotOpen);
        }
        if !p.target_authority.same(&self.target_authority) {
            return Err(ErrorCode::TargetAuthorityDoesNotMatch);
        }
        if !p.treasury_account.same(&self.treasury_key) {
            return Err(ErrorCode::TreasuryAccountDoesNotMatch);
        }
        if !t.token_store.same(&self.token_store) {
            return Err(ErrorCode::TokenStoreDoesNotMatch);
        }
        if !verify_authority(program_id, &self.treasury_key, t.token_authority_bump, &self.token_authority) {
            return Err(ErrorCode::InvalidTreasuryTokenAuthorityBump);
        }
        let amount = p.non_claimed_amount;
        let payout = Transfer {
            from: self.token_store,
            to: self.transfer_token_to,
            authority: self.token_authority,
            amount,
        };
        self.promise_account.non_claimed_amount = 0;
        self.treasury_account.total_non_claimed = t.total_non_claimed.saturating_sub(amount);
        Ok(payout)
    }
}

/// The accounts that cancelling a promise reads and writes.
#[derive(Debug, Clone, Copy)]
pub struct ClosePromise {
    pub promise_account: Promise,
    pub treasury_key: Pubkey,
    pub treasury_account: Treasury,
    /// The signer.
    pub admin_authority: Pubkey,
    /// Receives the promise record's storage deposit.
    pub rent_collector: Pubkey,
}

impl ClosePromise {
    /// Why cancelling at time `now` is refused, if it is.
    pub open spec fn refusal(&self, now: i64) -> Option<ErrorCode> {
        let t = self.treasury_account;
        if self.promise_account.state != PromiseState::Open {
            Some(ErrorCode::PromiseNotOpen)
        } else if t.state != TreasuryState::Open {
            Some(ErrorCode::TreasuryNotOpen)
        } else if self.promise_account.treasury_account@ != self.treasury_key@ {
            Some(ErrorCode::TreasuryAccountDoesNotMatch)
        } else if t.admin_authority@ != self.admin_authority@ {
            Some(ErrorCode::AdminAuthorityDoesNotMatch)
        } else if t.rent_collector@ != self.rent_collector@ {
            Some(ErrorCode::RentCollectorDoesNotMatch)
        } else if now < t.end_time {
            Some(ErrorCode::TooEarlyToClose)
        } else {
            None
        }
    }

    /// How `process` with these arguments relates the accounts before
    /// (`self`) and after (`after`) to its result `r`.
    pub open spec fn outcome(&self, after: Self, now: i64, r: Result<(), ErrorCode>) -> bool {
        match self.refusal(now) {
            Some(e) => r == Err::<(), ErrorCode>(e) && after == *self,
            None => {
                &&& r is Ok
                &&& after.promise_account == (Promise {
                    state: PromiseState::Closed,
                    total_amount: 0,
                    non_claimed_amount: 0,
                    ..self.promise_account
                })
                &&& after.treasury_account == (Treasury {
                    total_non_claimed: sat_sub(
                        self.treasury_account.total_non_claimed as int,
                        self.promise_account.non_claimed_amount as int,
                    ) as u64,
                    total_promised: sat_sub(
                        self.treasury_account.total_promised as int,
                        self.promise_account.total_amount as int,
                    ) as u64,
                    promise_count: sat_sub(self.treasury_account.promise_count as int, 1) as u64,
                    ..self.treasury_account
                })
                &&& after.treasury_key == self.treasury_key
                &&& after.admin_authority == self.admin_authority
                &&& after.rent_collector == self.rent_collector
            },
        }
    }

    /// Cancels the open promise at time `now`, not before the end time, its
    /// storage going to the treasury's rent collector. The treasury's totals
    /// shrink by what the promise held and its count by one, and the
    /// promise is left closed and empty, for good.
    pub fn process(&mut self, now: i64) -> (r: Result<(), ErrorCode>)
        ensures
            old(self).outcome(*final(self), now, r),
    {
        let p = self.promise_account;
        let t = self.treasury_account;
        if p.state != PromiseState::Open {
            return Err(ErrorCode::PromiseNotOpen);
        }
        if t.state != TreasuryState::Open {
            return Err(ErrorCode::TreasuryNotOpen);
        }
        if !p.treasury_account.same(&self.treasury_key) {
            return Err(ErrorCode::TreasuryAccountDoesNotMatch);
        }
        if !t.admin_authority.same(&self.admin_authority) {
            return Err(ErrorCode::AdminAuthorityDoesNotMatch);
        }
        if !t.rent_collector.same(&self.rent_collector) {
            return Err(ErrorCode::RentCollectorDoesNotMatch);
        }
        if now < t.end_time {
            return Err(ErrorCode::TooEarlyToClose);
        }
        self.treasury_account.total_non_claimed = t.total_non_claimed.saturating_sub(p.non_claimed_amount);
        self.treasury_account.total_promised = t.total_promised.saturating_sub(p.total_amount);
        self.treasury_account.promise_count = t.promise_count.saturating_sub(1);
        self.promise_account.state = PromiseState::Closed;
        self.promise_account.non_claimed_amount = 0;
        self.promise_account.total_amount = 0;
        Ok(())
    }
}

} // verus!
