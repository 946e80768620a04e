use vstd::prelude::*;

use crate::pubkey::Pubkey;

verus! {

/// What the treasury reads of a token account of the custody service.
#[derive(Debug, Clone, Copy)]
pub struct TokenAccount {
    /// The account's own address.
    pub key: Pubkey,
    /// The authority that controls the account.
    pub owner: Pubkey,
    /// Its balance.
    pub amount: u64,
    pub delegate: Option<Pubkey>,
    pub close_authority: Option<Pubkey>,
}

/// A movement of `amount` tokens that the custody service must perform,
/// authorised by `authority`.
#[derive(Debug, Clone, Copy)]
pub struct Transfer {
    pub from: Pubkey,
    pub to: Pubkey,
    pub authority: Pubkey,
    pub amount: u64,
}

/// The closing of token account `account`, its storage deposit going to
/// `destination`, authorised by `authority`.
#[derive(Debug, Clone, Copy)]
pub struct CloseAccount {
    pub account: Pubkey,
    pub destination: Pubkey,
    pub authority: Pubkey,
}

} // verus!
