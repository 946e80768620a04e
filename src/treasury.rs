use vstd::prelude::*;

use crate::authority::{authority_seeds, derive_authority, derives, verify_authority};
use crate::error::ErrorCode;
use crate::pubkey::{canonical_address, Pubkey};
use crate::token::{CloseAccount, TokenAccount, Transfer};

verus! {

/// Where a treasury record stands in its life. It is opened once and closed
/// once; a closed treasury never opens again.
#[derive(Debug, Clone, Copy, PartialEq, Eq, Structural)]
pub enum TreasuryState {
    Unopened,
    Open,
    Closed,
}

/// The record of one distribution campaign.
#[derive(Debug, Clone, Copy)]
pub struct Treasury {
    pub state: TreasuryState,
    pub admin_authority: Pubkey,
    /// The custody account that holds the tokens to distribute.
    pub token_store: Pubkey,
    /// Receives the storage deposits of closed records.
    pub rent_collector: Pubkey,
    /// Sum of the total amounts of the open promises.
    pub total_promised: u64,
    /// Sum of the unclaimed amounts of the open promises.
    pub total_non_claimed: u64,
    /// Number of open promises.
    pub promise_count: u64,
    /// Claims are refused before this time.
    pub start_time: i64,
    /// Closing is refused before this time.
    pub end_time: i64,
    /// The canonical bump of the token authority.
    pub token_authority_bump: u8,
}

impl Treasury {
    /// Whether every field but the state is zero: what a record holds before
    /// it is opened and after it is closed.
    pub open spec fn is_blank(&self) -> bool {
        &&& self.admin_authority@ == Seq::new(32, |i: int| 0u8)
        &&& self.token_store@ == Seq::new(32, |i: int| 0u8)
        &&& self.rent_collector@ == Seq::new(32, |i: int| 0u8)
        &&& self.total_promised == 0
        &&& self.total_non_claimed == 0
        &&& self.promise_count == 0
        &&& self.start_time == 0
        &&& self.end_time == 0
        &&& self.token_authority_bump == 0
    }

    /// Whether the treasury still owes anything or has an open promise.
    pub open spec fn has_obligations(&self) -> bool {
        self.promise_count > 0 || self.total_promised > 0 || self.total_non_claimed > 0
    }

    fn blank(state: TreasuryState) -> (r: Treasury)
        ensures
            r.is_blank(),
            r.state == state,
    {
        Treasury {
            state,
            admin_authority: Pubkey::zeroed(),
            token_store: Pubkey::zeroed(),
            rent_collector: Pubkey::zeroed(),
            total_promised: 0,
            total_non_claimed: 0,
            promise_count: 0,
            start_time: 0,
            end_time: 0,
            token_authority_bump: 0,
        }
    }

    /// A record that was never opened.
    pub fn unopened() -> (r: Treasury)
        ensures
            r.is_blank(),
            r.state == TreasuryState::Unopened,
    {
        Treasury::blank(TreasuryState::Unopened)
    }
}

/// The accounts that opening a treasury reads and writes.
#[derive(Debug, Clone, Copy)]
pub struct InitTreasury {
    pub treasury_key: Pubkey,
    pub treasury_account: Treasury,
    pub token_store: TokenAccount,
}

impl InitTreasury {
    /// Why opening is refused, if it is.
    pub open spec fn refusal(&self, program_id: Seq<u8>) -> Option<ErrorCode> {
        if self.treasury_account.state != TreasuryState::Unopened {
            Some(ErrorCode::TreasuryAlreadyInitialized)
        } else {
            match canonical_address(authority_seeds(self.treasury_key@), program_id) {
                None => Some(ErrorCode::InvalidTreasuryTokenAuthorityBump),
                Some((authority, _)) => if self.token_store.owner@ != authority {
                    Some(ErrorCode::TreasuryTokenAuthorityDoesNotMatch)
                } else if self.token_store.delegate is Some {
                    Some(ErrorCode::TreasuryTokenAccountCanNotBeDelegated)
                } else if self.token_store.close_authority is Some {
                    Some(ErrorCode::TreasuryTokenAccountMustNotBeCloseable)
                } else {
                    None
                },
            }
        }
    }

    /// The canonical bump of the token authority, where one exists.
    pub open spec fn bump(&self, program_id: Seq<u8>) -> u8 {
        canonical_address(authority_seeds(self.treasury_key@), program_id).unwrap().1
    }

    /// How `process` with these arguments relates the accounts before
    /// (`self`) and after (`after`) to its result `r`.
    pub open spec fn outcome(
        &self,
        after: Self,
        program_id: Seq<u8>,
        admin_authority: Pubkey,
        rent_collector: Pubkey,
        start_time: i64,
        end_time: i64,
        r: Result<(), ErrorCode>,
    ) -> bool {
        match self.refusal(program_id) {
            Some(e) => r == Err::<(), ErrorCode>(e) && after == *self,
            None => {
                &&& r is Ok
                &&& after.treasury_key == self.treasury_key
                &&& after.token_store == self.token_store
                &&& after.treasury_account == (Treasury {
                    state: TreasuryState::Open,
                    admin_authority,
                    token_store: self.token_store.key,
                    rent_collector,
                    total_promised: 0,
                    total_non_claimed: 0,
                    promise_count: 0,
                    start_time,
                    end_time,
                    token_authority_bump: self.bump(program_id),
                })
            },
        }
    }

    /// Opens the treasury, once: the record must never have been opened, and
    /// the custody account must be controlled by the token authority derived
    /// from the treasury's address, with no delegate and no close authority.
    /// All running totals start at zero.
    pub fn process(
        &mut self,
        program_id: &Pubkey,
        admin_authority: Pubkey,
        rent_collector: Pubkey,
        start_time: i64,
        end_time: i64,
    ) -> (r: Result<(), ErrorCode>)
        ensures
            old(self).outcome(*final(self), program_id@, admin_authority, rent_collector, start_time, end_time, r),
    {
        if self.treasury_account.state != TreasuryState::Unopened {
            return Err(ErrorCode::TreasuryAlreadyInitialized);
        }
        let (token_authority, token_authority_bump) = match derive_authority(program_id, &self.treasury_key) {
            Some(found) => found,
            None => {
                return Err(ErrorCode::InvalidTreasuryTokenAuthorityBump);
            },
        };
        if !self.token_store.owner.same(&token_authority) {
            return Err(ErrorCode::TreasuryTokenAuthorityDoesNotMatch);
        }
        if self.token_store.delegate.is_some() {
            return Err(ErrorCode::TreasuryTokenAccountCanNotBeDelegated);
        }
        if self.token_store.close_authority.is_some() {
            return Err(ErrorCode::TreasuryTokenAccountMustNotBeCloseable);
        }
        self.treasury_account = Treasury {
            state: TreasuryState::Open,
            admin_authority,
            token_store: self.token_store.key,
            rent_collector,
            total_promised: 0,
            total_non_claimed: 0,
            promise_count: 0,
            start_time,
            end_time,
            token_authority_bump,
        };
        Ok(())
    }
}

/// What closing a treasury asks of the custody service: sweep the whole
/// balance to the destination, then close the custody account.
#[derive(Debug, Clone, Copy)]
pub struct TreasuryClosure {
    pub sweep: Transfer,
    pub close: CloseAccount,
}

/// The accounts that closing a treasury reads and writes.
#[derive(Debug, Clone, Copy)]
pub struct CloseTreasury {
    pub treasury_key: Pubkey,
    pub treasury_account: Treasury,
    /// The signer.
    pub admin_authority: Pubkey,
    pub token_authority: Pubkey,
    pub token_store: TokenAccount,
    pub transfer_token_to: Pubkey,
    pub rent_collector: Pubkey,
}

impl CloseTreasury {
    /// Why closing is refused at time `now`, if it is. The gates on time,
    /// on open promises and on the destination come first, so that each
    /// refuses whoever asks.
    pub open spec fn refusal(&self, program_id: Seq<u8>, now: i64) -> Option<ErrorCode> {
        let t = self.treasury_account;
        if now < t.end_time {
            Some(ErrorCode::TooEarlyToClose)
        } else if t.promise_count > 0 {
            Some(ErrorCode::ClosingTreasuryWithPromises)
        } else if self.transfer_token_to@ == self.token_store.key@ {
            Some(ErrorCode::CloseTargetIsSource)
        } else if t.total_promised > 0 || t.total_non_claimed > 0 {
            Some(ErrorCode::ClosingTreasuryWithPromises)
        } else if t.state != TreasuryState::Open {
            Some(ErrorCode::TreasuryNotOpen)
        } else if t.admin_authority@ != self.admin_authority@ {
            Some(ErrorCode::AdminAuthorityDoesNotMatch)
        } else if t.token_store@ != self.token_store.key@ {
            Some(ErrorCode::TokenStoreDoesNotMatch)
        } else if t.rent_collector@ != self.rent_collector@ {
            Some(ErrorCode::RentCollectorDoesNotMatch)
        } else if !derives(authority_seeds(self.treasury_key@), t.token_authority_bump, program_id, self.token_authority@) {
            Some(ErrorCode::InvalidTreasuryTokenAuthorityBump)
        } else {
            None
        }
    }

    /// The token movements that a successful closing asks for.
    pub open spec fn closure(&self) -> TreasuryClosure {
        TreasuryClosure {
            sweep: Transfer {
                from: self.token_store.key,
                to: self.transfer_token_to,
                authority: self.token_authority,
                amount: self.token_store.amount,
            },
            close: CloseAccount {
                account: self.token_store.key,
                destination: self.rent_collector,
                authority: self.token_authority,
            },
        }
    }

    /// How `process` with these arguments relates the accounts before
    /// (`self`) and after (`after`) to its result `r`.
    pub open spec fn outcome(&self, after: Self, program_id: Seq<u8>, now: i64, r: Result<TreasuryClosure, ErrorCode>) -> bool {
        match self.refusal(program_id, now) {
            Some(e) => r == Err::<TreasuryClosure, ErrorCode>(e) && after == *self,
            None => {
                &&& r == Ok::<TreasuryClosure, ErrorCode>(self.closure())
                &&& after.treasury_account.is_blank()
                &&& after.treasury_account.state == TreasuryState::Closed
                &&& after.token_store == (TokenAccount { amount: 0, ..self.token_store })
                &&& after.treasury_key == self.treasury_key
                &&& after.admin_authority == self.admin_authority
                &&& after.token_authority == self.token_authority
                &&& after.transfer_token_to == self.transfer_token_to
                &&& after.rent_collector == self.rent_collector
            },
        }
    }

    /// Closes the open treasury at time `now`: only its administrator, not
    /// before its end time, only with no open promise and nothing owed, and
    /// never into the custody account itself. The custody balance is swept
    /// out and the record is left closed and blank, for good.
    pub fn process(&mut self, program_id: &Pubkey, now: i64) -> (r: Result<TreasuryClosure, ErrorCode>)
        ensures
            old(self).outcome(*final(self), program_id@, now, r),
    {
        let t = self.treasury_account;
        if now < t.end_time {
            return Err(ErrorCode::TooEarlyToClose);
        }
        if t.promise_count > 0 {
            return Err(ErrorCode::ClosingTreasuryWithPromises);
        }
        if self.transfer_token_to.same(&self.token_store.key) {
            return Err(ErrorCode::CloseTargetIsSource);
        }
        if t.total_promised > 0 || t.total_non_claimed > 0 {
            return Err(ErrorCode::ClosingTreasuryWithPromises);
        }
        if t.state != TreasuryState::Open {
            return Err(ErrorCode::TreasuryNotOpen);
        }
        if !t.admin_authority.same(&self.admin_authority) {
            return Err(ErrorCode::AdminAuthorityDoesNotMatch);
        }
        if !t.token_store.same(&self.token_store.key) {
            return Err(ErrorCode::TokenStoreDoesNotMatch);
        }
        if !t.rent_collector.same(&self.rent_collector) {
            return Err(ErrorCode::RentCollectorDoesNotMatch);
        }
        if !verify_authority(program_id, &self.treasury_key, t.token_authority_bump, &self.token_authority) {
            return Err(ErrorCode::InvalidTreasuryTokenAuthorityBump);
        }
        let closure = TreasuryClosure {
            sweep: Transfer {
                from: self.token_store.key,
                to: self.transfer_token_to,
                authority: self.token_authority,
                amount: self.token_store.amount,
            },
            close: CloseAccount {
                account: self.token_store.key,
                destination: self.rent_collector,
                authority: self.token_authority,
            },
        };
        self.token_store.amount = 0;
        self.treasury_account = Treasury::blank(TreasuryState::Closed);
        Ok(closure)
    }
}

/// The accounts that reconfiguring a treasury reads and writes.
#[derive(Debug, Clone, Copy)]
pub struct ConfigureTreasury {
    pub treasury_account: Treasury,
    /// The signer.
    pub admin_authority: Pubkey,
}

impl ConfigureTreasury {
    /// Why a reconfiguration is refused, if it is.
    pub open spec fn refusal(&self) -> Option<ErrorCode> {
        if self.treasury_account.admin_authority@ != self.admin_authority@ {
            Some(ErrorCode::AdminAuthorityDoesNotMatch)
        } else if self.treasury_account.state != TreasuryState::Open {
            Some(ErrorCode::TreasuryNotOpen)
        } else {
            None
        }
    }

    fn check(&self) -> (r: Result<(), ErrorCode>)
        ensures
            r == match self.refusal() {
                Some(e) => Err::<(), ErrorCode>(e),
                None => Ok(()),
            },
    {
        if !self.treasury_account.admin_authority.same(&self.admin_authority) {
            return Err(ErrorCode::AdminAuthorityDoesNotMatch);
        }
        if self.treasury_account.state != TreasuryState::Open {
            return Err(ErrorCode::TreasuryNotOpen);
        }
        Ok(())
    }

    /// Hands the administration of the open treasury to `new_admin`; only
    /// the current administrator may.
    pub fn set_admin_authority(&mut self, new_admin: Pubkey) -> (r: Result<(), ErrorCode>)
        ensures
            match old(self).refusal() {
                Some(e) => r == Err::<(), ErrorCode>(e) && *final(self) == *old(self),
                None => {
                    &&& r is Ok
                    &&& final(self).treasury_account == (Treasury { admin_authority: new_admin, ..old(self).treasury_account })
                    &&& final(self).admin_authority == old(self).admin_authority
                },
            },
    {
        if let Err(e) = self.check() {
            return Err(e);
        }
        self.treasury_account.admin_authority = new_admin;
        Ok(())
    }

    /// Moves the start time of the open treasury to `new_start_time`; only
    /// the administrator may.
    pub fn set_start_time(&mut self, new_start_time: i64) -> (r: Result<(), ErrorCode>)
        ensures
            match old(self).refusal() {
                Some(e) => r == Err::<(), ErrorCode>(e) && *final(self) == *old(self),
                None => {
                    &&& r is Ok
                    &&& final(self).treasury_account == (Treasury { start_time: new_start_time, ..old(self).treasury_account })
                    &&& final(self).admin_authority == old(self).admin_authority
                },
            },
    {
        if let Err(e) = self.check() {
            return Err(e);
        }
        self.treasury_account.start_time = new_start_time;
        Ok(())
    }
}

} // verus!
