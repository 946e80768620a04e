//! Properties that hold across operations and over every reachable state.
use vstd::prelude::*;

use crate::error::ErrorCode;
use crate::promise::{Claim, ClosePromise, InitPromise, Promise, PromiseState, SetPromiseAmount};
use crate::token::Transfer;
use crate::treasury::{CloseTreasury, InitTreasury, Treasury, TreasuryClosure, TreasuryState};

verus! {

/// Sum of the unclaimed amounts of `promises`.
pub open spec fn outstanding(promises: Seq<Promise>) -> int
    decreases promises.len(),
{
    if promises.len() == 0 {
        0
    } else {
        outstanding(promises.drop_last()) + promises.last().non_claimed_amount
    }
}

/// The accounting invariant of a treasury whose live promises are `live`
/// and whose custody account holds `balance`: every promise is well formed,
/// the treasury's unclaimed total is exactly what the promises still owe,
/// and the balance covers it.
pub open spec fn custody_covers(t: Treasury, balance: int, live: Seq<Promise>) -> bool {
    &&& forall|i: int| 0 <= i < live.len() ==> (#[trigger] live[i]).wf()
    &&& t.total_non_claimed == outstanding(live)
    &&& outstanding(live) <= balance
}

proof fn lemma_outstanding_nonneg(promises: Seq<Promise>)
    ensures
        outstanding(promises) >= 0,
    decreases promises.len(),
{
    if promises.len() > 0 {
        lemma_outstanding_nonneg(promises.drop_last());
    }
}

proof fn lemma_outstanding_push(others: Seq<Promise>, p: Promise)
    ensures
        outstanding(others.push(p)) == outstanding(others) + p.non_claimed_amount,
        outstanding(others) >= 0,
{
    assert(others.push(p).drop_last() =~= others);
    lemma_outstanding_nonneg(others);
}

proof fn lemma_wf_push(others: Seq<Promise>, p: Promise)
    requires
        forall|i: int| 0 <= i < others.push(p).len() ==> (#[trigger] others.push(p)[i]).wf(),
    ensures
        forall|i: int| 0 <= i < others.len() ==> (#[trigger] others[i]).wf(),
        p.wf(),
{
    assert forall|i: int| 0 <= i < others.len() implies (#[trigger] others[i]).wf() by {
        assert(others.push(p)[i] == others[i]);
    }
    assert(others.push(p)[others.len() as int] == p);
}

proof fn lemma_wf_push_back(others: Seq<Promise>, p: Promise)
    requires
        forall|i: int| 0 <= i < others.len() ==> (#[trigger] others[i]).wf(),
        p.wf(),
    ensures
        forall|i: int| 0 <= i < others.push(p).len() ==> (#[trigger] others.push(p)[i]).wf(),
{
    assert forall|i: int| 0 <= i < others.push(p).len() implies (#[trigger] others.push(p)[i]).wf() by {
        if i < others.len() {
            assert(others.push(p)[i] == others[i]);
        }
    }
}

/// A freshly opened treasury owes nothing, whatever its custody balance.
pub proof fn law_open_treasury_covers(
    before: InitTreasury,
    after: InitTreasury,
    program_id: Seq<u8>,
    admin_authority: crate::pubkey::Pubkey,
    rent_collector: crate::pubkey::Pubkey,
    start_time: i64,
    end_time: i64,
)
    requires
        before.outcome(after, program_id, admin_authority, rent_collector, start_time, end_time, Ok(())),
    ensures
        custody_covers(after.treasury_account, after.token_store.amount as int, Seq::empty()),
{
}

/// Opening a promise keeps the custody invariant, with the new empty promise
/// among the live ones.
pub proof fn law_open_promise_keeps_custody(
    before: InitPromise,
    after: InitPromise,
    program_id: Seq<u8>,
    target_authority: crate::pubkey::Pubkey,
    bump: u8,
    balance: int,
    live: Seq<Promise>,
)
    requires
        before.outcome(after, program_id, target_authority, bump, Ok(())),
        custody_covers(before.treasury_account, balance, live),
    ensures
        custody_covers(after.treasury_account, balance, live.push(after.promise_account)),
{
    lemma_outstanding_push(live, after.promise_account);
    lemma_wf_push_back(live, after.promise_account);
}

/// Resizing a promise keeps the custody invariant; `others` are the other
/// live promises of the treasury.
pub proof fn law_set_amount_keeps_custody(
    before: SetPromiseAmount,
    after: SetPromiseAmount,
    now: i64,
    new_total: u64,
    r: Result<(), ErrorCode>,
    others: Seq<Promise>,
)
    requires
        before.outcome(after, now, new_total, r),
        custody_covers(before.treasury_account, before.token_store.amount as int, others.push(before.promise_account)),
    ensures
        custody_covers(after.treasury_account, after.token_store.amount as int, others.push(after.promise_account)),
{
    lemma_outstanding_push(others, before.promise_account);
    lemma_outstanding_push(others, after.promise_account);
    lemma_wf_push(others, before.promise_account);
    if r is Ok {
        lemma_wf_push_back(others, after.promise_account);
    }
}

/// A claim pays out no more than the custody balance holds, and keeps the
/// custody invariant once the payout has left the custody account.
pub proof fn law_claim_keeps_custody(
    before: Claim,
    after: Claim,
    program_id: Seq<u8>,
    now: i64,
    payout: Transfer,
    balance: int,
    others: Seq<Promise>,
)
    requires
        before.outcome(after, program_id, now, Ok(payout)),
        custody_covers(before.treasury_account, balance, others.push(before.promise_account)),
    ensures
        payout.amount <= balance,
        custody_covers(after.treasury_account, balance - payout.amount, others.push(after.promise_account)),
{
    lemma_outstanding_push(others, before.promise_account);
    lemma_outstanding_push(others, after.promise_account);
    lemma_wf_push(others, before.promise_account);
    lemma_wf_push_back(others, after.promise_account);
}

/// Cancelling a promise keeps the custody invariant over the promises that
/// stay live.
pub proof fn law_close_promise_keeps_custody(
    before: ClosePromise,
    after: ClosePromise,
    now: i64,
    balance: int,
    others: Seq<Promise>,
)
    requires
        before.outcome(after, now, Ok(())),
        custody_covers(before.treasury_account, balance, others.push(before.promise_account)),
    ensures
        custody_covers(after.treasury_account, balance, others),
{
    lemma_outstanding_push(others, before.promise_account);
    lemma_wf_push(others, before.promise_account);
}

/// A second claim of the same promise pays nothing.
pub proof fn law_no_double_claim(
    first: Claim,
    between: Claim,
    last: Claim,
    program_id: Seq<u8>,
    now: i64,
    later: i64,
    payout: Transfer,
    r: Result<Transfer, ErrorCode>,
)
    requires
        first.outcome(between, program_id, now, Ok(payout)),
        between.outcome(last, program_id, later, r),
    ensures
        match r {
            Ok(t) => t.amount == 0,
            Err(_) => true,
        },
        last.treasury_account.total_non_claimed == between.treasury_account.total_non_claimed,
{
}

/// A claim before the start time fails with the error of a claim that
/// came too early, with nothing changed and nothing paid.
pub proof fn law_claim_before_start(
    before: Claim,
    after: Claim,
    program_id: Seq<u8>,
    now: i64,
    r: Result<Transfer, ErrorCode>,
)
    requires
        before.outcome(after, program_id, now, r),
        now < before.treasury_account.start_time,
    ensures
        r == Err::<Transfer, ErrorCode>(ErrorCode::NonStarted),
        after == before,
{
}

/// From the start time on, shrinking a promise fails with the error of a
/// withdrawal after the start, with nothing changed.
pub proof fn law_no_shrink_after_start(
    before: SetPromiseAmount,
    after: SetPromiseAmount,
    now: i64,
    new_total: u64,
    r: Result<(), ErrorCode>,
)
    requires
        before.outcome(after, now, new_total, r),
        now >= before.treasury_account.start_time,
        new_total < before.promise_account.total_amount,
    ensures
        r == Err::<(), ErrorCode>(ErrorCode::CanNotWithdrawPromiseAfterStart),
        after == before,
{
}

/// Closing a treasury fails, with nothing changed, while a promise is open
/// or anything is still owed, and when the sweep would go into the custody
/// account itself. Once the end time has come, an open promise gives the
/// error of promises that remain, and with none open, a sweep into the
/// custody account gives the error of a target that is the source.
pub proof fn law_close_treasury_gated(
    before: CloseTreasury,
    after: CloseTreasury,
    program_id: Seq<u8>,
    now: i64,
    r: Result<TreasuryClosure, ErrorCode>,
)
    requires
        before.outcome(after, program_id, now, r),
        before.treasury_account.has_obligations() || before.transfer_token_to@ == before.token_store.key@,
    ensures
        r is Err,
        after == before,
        now >= before.treasury_account.end_time && before.treasury_account.promise_count > 0
            ==> r == Err::<TreasuryClosure, ErrorCode>(ErrorCode::ClosingTreasuryWithPromises),
        now >= before.treasury_account.end_time && before.treasury_account.promise_count == 0
            && before.transfer_token_to@ == before.token_store.key@
            ==> r == Err::<TreasuryClosure, ErrorCode>(ErrorCode::CloseTargetIsSource),
{
}

/// A treasury opens once: opening a record that was opened or closed before
/// fails with nothing changed.
pub proof fn law_treasury_opens_once(
    before: InitTreasury,
    after: InitTreasury,
    program_id: Seq<u8>,
    admin_authority: crate::pubkey::Pubkey,
    rent_collector: crate::pubkey::Pubkey,
    start_time: i64,
    end_time: i64,
    r: Result<(), ErrorCode>,
)
    requires
        before.outcome(after, program_id, admin_authority, rent_collector, start_time, end_time, r),
        before.treasury_account.state != TreasuryState::Unopened,
    ensures
        r == Err::<(), ErrorCode>(ErrorCode::TreasuryAlreadyInitialized),
        after == before,
{
}

/// A promise record opens once: opening one that was opened or cancelled
/// before fails with nothing changed.
pub proof fn law_promise_opens_once(
    before: InitPromise,
    after: InitPromise,
    program_id: Seq<u8>,
    target_authority: crate::pubkey::Pubkey,
    bump: u8,
    r: Result<(), ErrorCode>,
)
    requires
        before.outcome(after, program_id, target_authority, bump, r),
        before.promise_account.state != PromiseState::Unopened,
    ensures
        r == Err::<(), ErrorCode>(ErrorCode::PromiseAlreadyInitialized),
        after == before,
{
}

/// Opening a promise, giving it an amount and cancelling it before any claim
/// leaves the treasury record as it was.
pub proof fn law_round_trip(
    open_before: InitPromise,
    open_after: InitPromise,
    set_before: SetPromiseAmount,
    set_after: SetPromiseAmount,
    close_before: ClosePromise,
    close_after: ClosePromise,
    program_id: Seq<u8>,
    target_authority: crate::pubkey::Pubkey,
    bump: u8,
    set_time: i64,
    amount: u64,
    close_time: i64,
)
    requires
        open_before.outcome(open_after, program_id, target_authority, bump, Ok(())),
        set_before.treasury_account == open_after.treasury_account,
        set_before.promise_account == open_after.promise_account,
        set_before.outcome(set_after, set_time, amount, Ok(())),
        close_before.treasury_account == set_after.treasury_account,
        close_before.promise_account == set_after.promise_account,
        close_before.outcome(close_after, close_time, Ok(())),
    ensures
        close_after.treasury_account == open_before.treasury_account,
{
}

} // verus!
