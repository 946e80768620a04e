use maridrop::authority::{derive_authority, derive_promise_address, verify_authority, verify_promise_address};
use maridrop::error::ErrorCode;
use maridrop::promise::{Claim, ClosePromise, InitPromise, Promise, PromiseState, SetPromiseAmount};
use maridrop::pubkey::Pubkey;
use maridrop::token::TokenAccount;
use maridrop::treasury::{CloseTreasury, ConfigureTreasury, InitTreasury, Treasury, TreasuryState};
use maridrop::{claim, close_promise, close_treasury, init_promise, init_treasury, set_promise_amount};

const T: i64 = 1_000;

fn key(n: u8) -> Pubkey {
    Pubkey::new([n; 32])
}

fn program_id() -> Pubkey {
    key(7)
}

fn treasury_key() -> Pubkey {
    key(11)
}

fn admin() -> Pubkey {
    key(21)
}

fn rent() -> Pubkey {
    key(31)
}

fn store_key() -> Pubkey {
    key(41)
}

fn beneficiary(n: u8) -> Pubkey {
    key(100 + n)
}

fn authority() -> (Pubkey, u8) {
    derive_authority(&program_id(), &treasury_key()).expect("a bump exists")
}

fn empty_promise() -> Promise {
    Promise {
        state: PromiseState::Unopened,
        target_authority: Pubkey::zeroed(),
        treasury_account: Pubkey::zeroed(),
        total_amount: 0,
        non_claimed_amount: 0,
    }
}

fn custody(balance: u64) -> TokenAccount {
    TokenAccount {
        key: store_key(),
        owner: authority().0,
        amount: balance,
        delegate: None,
        close_authority: None,
    }
}

fn open_treasury(balance: u64, start: i64, end: i64) -> Treasury {
    let mut ctx = InitTreasury {
        treasury_key: treasury_key(),
        treasury_account: Treasury::unopened(),
        token_store: custody(balance),
    };
    init_treasury(&mut ctx, &program_id(), admin(), rent(), start, end).expect("opens");
    ctx.treasury_account
}

fn open_promise(t: Treasury, who: Pubkey) -> (Treasury, Promise) {
    let (address, bump) = derive_promise_address(&program_id(), &treasury_key(), &who).expect("a bump exists");
    let mut ctx = InitPromise {
        treasury_key: treasury_key(),
        treasury_account: t,
        admin_authority: admin(),
        promise_key: address,
        promise_account: empty_promise(),
        token_store: store_key(),
    };
    init_promise(&mut ctx, &program_id(), who, bump).expect("promise opens");
    (ctx.treasury_account, ctx.promise_account)
}

fn set_amount(t: Treasury, p: Promise, balance: u64, now: i64, amount: u64) -> (SetPromiseAmount, Result<(), ErrorCode>) {
    let mut ctx = SetPromiseAmount {
        promise_account: p,
        treasury_key: treasury_key(),
        treasury_account: t,
        token_store: custody(balance),
        admin_authority: admin(),
    };
    let r = set_promise_amount(&mut ctx, now, amount);
    (ctx, r)
}

fn claim_ctx(t: Treasury, p: Promise, who: Pubkey) -> Claim {
    Claim {
        promise_account: p,
        treasury_key: treasury_key(),
        treasury_account: t,
        target_authority: who,
        token_authority: authority().0,
        token_store: store_key(),
        transfer_token_to: key(200),
    }
}

fn close_promise_ctx(t: Treasury, p: Promise) -> ClosePromise {
    ClosePromise {
        promise_account: p,
        treasury_key: treasury_key(),
        treasury_account: t,
        admin_authority: admin(),
        rent_collector: rent(),
    }
}

fn close_treasury_ctx(t: Treasury, balance: u64) -> CloseTreasury {
    CloseTreasury {
        treasury_key: treasury_key(),
        treasury_account: t,
        admin_authority: admin(),
        token_authority: authority().0,
        token_store: custody(balance),
        transfer_token_to: key(200),
        rent_collector: rent(),
    }
}

#[test]
fn opened_treasury_starts_with_zero_totals() {
    let t = open_treasury(1000, T + 10, T + 100);
    assert!(t.admin_authority.same(&admin()));
    assert!(t.token_store.same(&store_key()));
    assert!(t.rent_collector.same(&rent()));
    assert_eq!(t.total_promised, 0);
    assert_eq!(t.total_non_claimed, 0);
    assert_eq!(t.promise_count, 0);
    assert_eq!(t.start_time, T + 10);
    assert_eq!(t.end_time, T + 100);
    assert_eq!(t.token_authority_bump, authority().1);
}

#[test]
fn derived_authority_is_canonical_and_checked() {
    let (a, bump) = authority();
    assert!(bump >= 1);
    assert!(!a.same(&treasury_key()));
    assert!(!a.same(&program_id()));
    assert!(verify_authority(&program_id(), &treasury_key(), bump, &a));
    assert!(!verify_authority(&program_id(), &treasury_key(), bump, &treasury_key()));
    let again = derive_authority(&program_id(), &treasury_key()).unwrap();
    assert!(again.0.same(&a));
    assert_eq!(again.1, bump);
    let other = derive_authority(&program_id(), &key(12)).unwrap();
    assert!(!other.0.same(&a));
}

#[test]
fn promise_address_depends_on_beneficiary() {
    let (a, bump) = derive_promise_address(&program_id(), &treasury_key(), &beneficiary(1)).unwrap();
    let (b, _) = derive_promise_address(&program_id(), &treasury_key(), &beneficiary(2)).unwrap();
    assert!(!a.same(&b));
    assert!(verify_promise_address(&program_id(), &treasury_key(), &beneficiary(1), bump, &a));
    assert!(!verify_promise_address(&program_id(), &treasury_key(), &beneficiary(2), bump, &a));
}

#[test]
fn open_treasury_rejects_foreign_owner() {
    let mut store = custody(1000);
    store.owner = key(99);
    let mut ctx = InitTreasury { treasury_key: treasury_key(), treasury_account: Treasury::unopened(), token_store: store };
    let r = init_treasury(&mut ctx, &program_id(), admin(), rent(), T, T);
    assert_eq!(r, Err(ErrorCode::TreasuryTokenAuthorityDoesNotMatch));
    assert_eq!(ctx.treasury_account.total_promised, 0);
    assert!(ctx.treasury_account.admin_authority.same(&Pubkey::zeroed()));
}

#[test]
fn open_treasury_rejects_delegated_custody() {
    let mut store = custody(1000);
    store.delegate = Some(key(98));
    let mut ctx = InitTreasury { treasury_key: treasury_key(), treasury_account: Treasury::unopened(), token_store: store };
    let r = init_treasury(&mut ctx, &program_id(), admin(), rent(), T, T);
    assert_eq!(r, Err(ErrorCode::TreasuryTokenAccountCanNotBeDelegated));
}

#[test]
fn open_treasury_rejects_closeable_custody() {
    let mut store = custody(1000);
    store.close_authority = Some(key(97));
    let mut ctx = InitTreasury { treasury_key: treasury_key(), treasury_account: Treasury::unopened(), token_store: store };
    let r = init_treasury(&mut ctx, &program_id(), admin(), rent(), T, T);
    assert_eq!(r, Err(ErrorCode::TreasuryTokenAccountMustNotBeCloseable));
}

#[test]
fn claim_waits_for_start_then_pays() {
    let t = open_treasury(1000, T + 10, T + 100);
    let (t, p) = open_promise(t, beneficiary(1));
    let (ctx, r) = set_amount(t, p, 1000, T, 300);
    assert_eq!(r, Ok(()));
    let (t, p) = (ctx.treasury_account, ctx.promise_account);
    assert_eq!(t.total_promised, 300);
    assert_eq!(t.total_non_claimed, 300);

    let mut early = claim_ctx(t, p, beneficiary(1));
    assert_eq!(claim(&mut early, &program_id(), T + 5).unwrap_err(), ErrorCode::NonStarted);
    assert_eq!(early.promise_account.non_claimed_amount, 300);
    assert_eq!(early.treasury_account.total_non_claimed, 300);

    let mut late = claim_ctx(t, p, beneficiary(1));
    let payout = claim(&mut late, &program_id(), T + 11).unwrap();
    assert_eq!(payout.amount, 300);
    assert!(payout.from.same(&store_key()));
    assert!(payout.to.same(&key(200)));
    assert!(payout.authority.same(&authority().0));
    assert_eq!(late.promise_account.non_claimed_amount, 0);
    assert_eq!(late.promise_account.total_amount, 300);
    assert_eq!(late.treasury_account.total_non_claimed, 0);
    assert_eq!(late.treasury_account.total_promised, 300);
}

#[test]
fn second_promise_cannot_overcommit_custody() {
    let t = open_treasury(1000, T + 10, T + 100);
    let (t, p1) = open_promise(t, beneficiary(1));
    let (ctx, r) = set_amount(t, p1, 1000, T, 600);
    assert_eq!(r, Ok(()));
    let (t, p2) = open_promise(ctx.treasury_account, beneficiary(2));
    let (ctx, r) = set_amount(t, p2, 1000, T, 500);
    assert_eq!(r, Err(ErrorCode::InsufficientPromiseFunds));
    assert_eq!(ctx.treasury_account.total_non_claimed, 600);
    assert_eq!(ctx.treasury_account.total_promised, 600);
    assert_eq!(ctx.promise_account.total_amount, 0);
}

#[test]
fn shrink_allowed_only_before_start() {
    let t = open_treasury(1000, T + 10, T + 100);
    let (t, p) = open_promise(t, beneficiary(1));
    let (ctx, r) = set_amount(t, p, 1000, T, 400);
    assert_eq!(r, Ok(()));
    let (ctx, r) = set_amount(ctx.treasury_account, ctx.promise_account, 1000, T, 100);
    assert_eq!(r, Ok(()));
    assert_eq!(ctx.treasury_account.total_non_claimed, 100);
    assert_eq!(ctx.treasury_account.total_promised, 100);
    let (after, r) = set_amount(ctx.treasury_account, ctx.promise_account, 1000, T + 10, 50);
    assert_eq!(r, Err(ErrorCode::CanNotWithdrawPromiseAfterStart));
    assert_eq!(after.treasury_account.total_non_claimed, 100);
    assert_eq!(after.promise_account.total_amount, 100);
}

#[test]
fn growing_after_claim_keeps_paid_part() {
    let t = open_treasury(1000, T, T + 100);
    let (t, p) = open_promise(t, beneficiary(1));
    let (ctx, _) = set_amount(t, p, 1000, T, 300);
    let mut c = claim_ctx(ctx.treasury_account, ctx.promise_account, beneficiary(1));
    claim(&mut c, &program_id(), T).unwrap();
    let (ctx, r) = set_amount(c.treasury_account, c.promise_account, 700, T + 1, 500);
    assert_eq!(r, Ok(()));
    assert_eq!(ctx.promise_account.total_amount, 500);
    assert_eq!(ctx.promise_account.non_claimed_amount, 200);
    assert_eq!(ctx.treasury_account.total_promised, 500);
    assert_eq!(ctx.treasury_account.total_non_claimed, 200);
}

#[test]
fn claiming_twice_pays_nothing_more() {
    let t = open_treasury(1000, T, T + 100);
    let (t, p) = open_promise(t, beneficiary(1));
    let (ctx, _) = set_amount(t, p, 1000, T - 1, 250);
    let mut c = claim_ctx(ctx.treasury_account, ctx.promise_account, beneficiary(1));
    assert_eq!(claim(&mut c, &program_id(), T).unwrap().amount, 250);
    let second = claim(&mut c, &program_id(), T + 1).unwrap();
    assert_eq!(second.amount, 0);
    assert_eq!(c.treasury_account.total_non_claimed, 0);
}

#[test]
fn claim_by_stranger_is_refused() {
    let t = open_treasury(1000, T, T + 100);
    let (t, p) = open_promise(t, beneficiary(1));
    let mut c = claim_ctx(t, p, beneficiary(2));
    assert_eq!(claim(&mut c, &program_id(), T + 1).unwrap_err(), ErrorCode::TargetAuthorityDoesNotMatch);
}

#[test]
fn claim_with_forged_authority_is_refused() {
    let t = open_treasury(1000, T, T + 100);
    let (t, p) = open_promise(t, beneficiary(1));
    let mut c = claim_ctx(t, p, beneficiary(1));
    c.token_authority = key(66);
    assert_eq!(claim(&mut c, &program_id(), T + 1).unwrap_err(), ErrorCode::InvalidTreasuryTokenAuthorityBump);
}

#[test]
fn promise_at_wrong_address_is_refused() {
    let t = open_treasury(1000, T, T + 100);
    let (_, bump) = derive_promise_address(&program_id(), &treasury_key(), &beneficiary(1)).unwrap();
    let mut ctx = InitPromise {
        treasury_key: treasury_key(),
        treasury_account: t,
        admin_authority: admin(),
        promise_key: key(55),
        promise_account: empty_promise(),
        token_store: store_key(),
    };
    assert_eq!(init_promise(&mut ctx, &program_id(), beneficiary(1), bump), Err(ErrorCode::PromiseAddressDoesNotMatch));
    assert_eq!(ctx.treasury_account.promise_count, 0);
}

#[test]
fn promise_count_overflow_is_refused() {
    let mut t = open_treasury(1000, T, T + 100);
    t.promise_count = u64::MAX;
    let (address, bump) = derive_promise_address(&program_id(), &treasury_key(), &beneficiary(1)).unwrap();
    let mut ctx = InitPromise {
        treasury_key: treasury_key(),
        treasury_account: t,
        admin_authority: admin(),
        promise_key: address,
        promise_account: empty_promise(),
        token_store: store_key(),
    };
    assert_eq!(init_promise(&mut ctx, &program_id(), beneficiary(1), bump), Err(ErrorCode::AmountOverflow));
}

#[test]
fn promise_by_non_admin_is_refused() {
    let t = open_treasury(1000, T, T + 100);
    let (t, p) = open_promise(t, beneficiary(1));
    let mut ctx = SetPromiseAmount {
        promise_account: p,
        treasury_key: treasury_key(),
        treasury_account: t,
        token_store: custody(1000),
        admin_authority: key(77),
    };
    assert_eq!(set_promise_amount(&mut ctx, T, 10), Err(ErrorCode::AdminAuthorityDoesNotMatch));
}

#[test]
fn open_then_close_restores_totals() {
    let t0 = open_treasury(1000, T, T + 100);
    let (t, p) = open_promise(t0, beneficiary(1));
    assert_eq!(t.promise_count, 1);
    let (ctx, _) = set_amount(t, p, 1000, T - 5, 420);
    let mut c = close_promise_ctx(ctx.treasury_account, ctx.promise_account);
    assert_eq!(close_promise(&mut c, T + 100), Ok(()));
    assert_eq!(c.treasury_account.total_promised, t0.total_promised);
    assert_eq!(c.treasury_account.total_non_claimed, t0.total_non_claimed);
    assert_eq!(c.treasury_account.promise_count, t0.promise_count);
    assert_eq!(c.promise_account.total_amount, 0);
    assert_eq!(c.promise_account.non_claimed_amount, 0);
}

#[test]
fn close_promise_too_early_is_refused() {
    let t = open_treasury(1000, T, T + 100);
    let (t, p) = open_promise(t, beneficiary(1));
    let mut c = close_promise_ctx(t, p);
    assert_eq!(close_promise(&mut c, T + 99), Err(ErrorCode::TooEarlyToClose));
    assert_eq!(c.treasury_account.promise_count, 1);
}

#[test]
fn close_promise_of_other_treasury_is_refused() {
    let t = open_treasury(1000, T, T + 100);
    let (t, mut p) = open_promise(t, beneficiary(1));
    p.treasury_account = key(12);
    let mut c = close_promise_ctx(t, p);
    assert_eq!(close_promise(&mut c, T + 100), Err(ErrorCode::TreasuryAccountDoesNotMatch));
}

#[test]
fn close_treasury_waits_for_open_promises() {
    let t = open_treasury(1000, T, T + 100);
    let (t, p) = open_promise(t, beneficiary(1));
    let mut ct = close_treasury_ctx(t, 1000);
    assert_eq!(close_treasury(&mut ct, &program_id(), T + 200).unwrap_err(), ErrorCode::ClosingTreasuryWithPromises);
    assert_eq!(ct.token_store.amount, 1000);
    assert_eq!(ct.treasury_account.promise_count, 1);

    let mut cp = close_promise_ctx(t, p);
    close_promise(&mut cp, T + 200).unwrap();
    let mut ct = close_treasury_ctx(cp.treasury_account, 1000);
    let closure = close_treasury(&mut ct, &program_id(), T + 200).unwrap();
    assert_eq!(closure.sweep.amount, 1000);
    assert!(closure.sweep.from.same(&store_key()));
    assert!(closure.sweep.to.same(&key(200)));
    assert!(closure.sweep.authority.same(&authority().0));
    assert!(closure.close.account.same(&store_key()));
    assert!(closure.close.destination.same(&rent()));
    assert_eq!(ct.token_store.amount, 0);
    assert!(ct.treasury_account.admin_authority.same(&Pubkey::zeroed()));
    assert_eq!(ct.treasury_account.promise_count, 0);
    assert_eq!(ct.treasury_account.state, TreasuryState::Closed);

    let mut reopen = InitTreasury { treasury_key: treasury_key(), treasury_account: ct.treasury_account, token_store: custody(5) };
    let r = init_treasury(&mut reopen, &program_id(), admin(), rent(), T, T);
    assert_eq!(r, Err(ErrorCode::TreasuryAlreadyInitialized));
    assert_eq!(reopen.treasury_account.state, TreasuryState::Closed);
}

#[test]
fn close_treasury_into_custody_is_refused() {
    let t = open_treasury(1000, T, T + 100);
    let mut ct = close_treasury_ctx(t, 1000);
    ct.transfer_token_to = store_key();
    assert_eq!(close_treasury(&mut ct, &program_id(), T + 100).unwrap_err(), ErrorCode::CloseTargetIsSource);
    assert_eq!(ct.token_store.amount, 1000);
}

#[test]
fn close_treasury_too_early_is_refused() {
    let t = open_treasury(1000, T, T + 100);
    let mut ct = close_treasury_ctx(t, 1000);
    assert_eq!(close_treasury(&mut ct, &program_id(), T + 99).unwrap_err(), ErrorCode::TooEarlyToClose);
}

#[test]
fn close_treasury_checks_accounts() {
    let t = open_treasury(1000, T, T + 100);
    let mut ct = close_treasury_ctx(t, 1000);
    ct.admin_authority = key(5);
    assert_eq!(close_treasury(&mut ct, &program_id(), T + 100).unwrap_err(), ErrorCode::AdminAuthorityDoesNotMatch);
    let mut ct = close_treasury_ctx(t, 1000);
    ct.rent_collector = key(5);
    assert_eq!(close_treasury(&mut ct, &program_id(), T + 100).unwrap_err(), ErrorCode::RentCollectorDoesNotMatch);
    let mut ct = close_treasury_ctx(t, 1000);
    ct.token_store.key = key(5);
    assert_eq!(close_treasury(&mut ct, &program_id(), T + 100).unwrap_err(), ErrorCode::TokenStoreDoesNotMatch);
    let mut ct = close_treasury_ctx(t, 1000);
    ct.token_authority = key(5);
    assert_eq!(close_treasury(&mut ct, &program_id(), T + 100).unwrap_err(), ErrorCode::InvalidTreasuryTokenAuthorityBump);
}

#[test]
fn reconfigure_only_by_admin() {
    let t = open_treasury(1000, T, T + 100);
    let mut c = ConfigureTreasury { treasury_account: t, admin_authority: admin() };
    assert_eq!(c.set_start_time(T + 50), Ok(()));
    assert_eq!(c.treasury_account.start_time, T + 50);
    assert_eq!(c.set_admin_authority(key(3)), Ok(()));
    assert!(c.treasury_account.admin_authority.same(&key(3)));
    assert_eq!(c.set_start_time(T), Err(ErrorCode::AdminAuthorityDoesNotMatch));
    assert_eq!(c.treasury_account.start_time, T + 50);
}

#[test]
fn open_treasury_twice_is_refused() {
    let t = open_treasury(1000, T, T + 100);
    let (t, _) = open_promise(t, beneficiary(1));
    assert_eq!(t.state, TreasuryState::Open);
    let mut ctx = InitTreasury { treasury_key: treasury_key(), treasury_account: t, token_store: custody(1000) };
    let r = init_treasury(&mut ctx, &program_id(), key(3), rent(), T, T);
    assert_eq!(r, Err(ErrorCode::TreasuryAlreadyInitialized));
    assert_eq!(ctx.treasury_account.promise_count, 1);
    assert!(ctx.treasury_account.admin_authority.same(&admin()));
}

#[test]
fn open_promise_twice_is_refused() {
    let t = open_treasury(1000, T, T + 100);
    let (t, p) = open_promise(t, beneficiary(1));
    let (ctx, _) = set_amount(t, p, 1000, T - 1, 70);
    let (address, bump) = derive_promise_address(&program_id(), &treasury_key(), &beneficiary(1)).unwrap();
    let mut again = InitPromise {
        treasury_key: treasury_key(),
        treasury_account: ctx.treasury_account,
        admin_authority: admin(),
        promise_key: address,
        promise_account: ctx.promise_account,
        token_store: store_key(),
    };
    assert_eq!(init_promise(&mut again, &program_id(), beneficiary(1), bump), Err(ErrorCode::PromiseAlreadyInitialized));
    assert_eq!(again.promise_account.total_amount, 70);
    assert_eq!(again.treasury_account.promise_count, 1);
}

#[test]
fn promise_with_other_bump_is_refused() {
    let t = open_treasury(1000, T, T + 100);
    let (address, bump) = derive_promise_address(&program_id(), &treasury_key(), &beneficiary(1)).unwrap();
    let mut ctx = InitPromise {
        treasury_key: treasury_key(),
        treasury_account: t,
        admin_authority: admin(),
        promise_key: address,
        promise_account: empty_promise(),
        token_store: store_key(),
    };
    let other = if bump == 255 { 254 } else { bump + 1 };
    assert_eq!(init_promise(&mut ctx, &program_id(), beneficiary(1), other), Err(ErrorCode::PromiseAddressDoesNotMatch));
}

#[test]
fn resize_to_same_amount_near_limit_succeeds() {
    let t = open_treasury(1000, T, T + 100);
    let (t, p) = open_promise(t, beneficiary(1));
    let (ctx, _) = set_amount(t, p, 1000, T - 1, 100);
    let mut t = ctx.treasury_account;
    t.total_promised = u64::MAX - 10;
    let (after, r) = set_amount(t, ctx.promise_account, 1000, T + 1, 100);
    assert_eq!(r, Ok(()));
    assert_eq!(after.treasury_account.total_promised, u64::MAX - 10);
    assert_eq!(after.treasury_account.total_non_claimed, 100);
    assert_eq!(after.promise_account.total_amount, 100);
    let (after, r) = set_amount(t, ctx.promise_account, 1000, T + 1, 110);
    assert_eq!(r, Ok(()));
    assert_eq!(after.treasury_account.total_promised, u64::MAX);
    let (_, r) = set_amount(t, ctx.promise_account, 1000, T + 1, 111);
    assert_eq!(r, Err(ErrorCode::AmountOverflow));
}

#[test]
fn close_promise_pays_only_the_rent_collector() {
    let t = open_treasury(1000, T, T + 100);
    let (t, p) = open_promise(t, beneficiary(1));
    let mut c = close_promise_ctx(t, p);
    c.rent_collector = key(90);
    assert_eq!(close_promise(&mut c, T + 100), Err(ErrorCode::RentCollectorDoesNotMatch));
    assert_eq!(c.treasury_account.promise_count, 1);
    assert_eq!(c.promise_account.state, PromiseState::Open);
}

#[test]
fn closed_promise_stays_closed() {
    let t = open_treasury(1000, T, T + 100);
    let (t, p) = open_promise(t, beneficiary(1));
    let (t, _) = open_promise(t, beneficiary(2));
    let mut c = close_promise_ctx(t, p);
    close_promise(&mut c, T + 100).unwrap();
    assert_eq!(c.promise_account.state, PromiseState::Closed);
    assert_eq!(c.treasury_account.promise_count, 1);
    let mut again = close_promise_ctx(c.treasury_account, c.promise_account);
    assert_eq!(close_promise(&mut again, T + 100), Err(ErrorCode::PromiseNotOpen));
    assert_eq!(again.treasury_account.promise_count, 1);
    let mut cl = claim_ctx(c.treasury_account, c.promise_account, beneficiary(1));
    assert_eq!(claim(&mut cl, &program_id(), T + 100).unwrap_err(), ErrorCode::PromiseNotOpen);
}

#[test]
fn unopened_treasury_cannot_be_configured() {
    let mut c = ConfigureTreasury { treasury_account: Treasury::unopened(), admin_authority: Pubkey::zeroed() };
    assert_eq!(c.set_start_time(T), Err(ErrorCode::TreasuryNotOpen));
}
