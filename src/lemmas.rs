use vstd::prelude::*;

use crate::constants::MAX_GROUP_USERS;
use crate::error::ErrorCode;
use crate::key::Key;
use crate::state::{
    balance_of, distinct_users, is_member, ledger_add, ledger_approve, ledger_change, ledger_remove,
    ledger_wf, lemma_add_keeps_ledger_wf, lemma_position_unique, lemma_remove_keeps_ledger_wf,
    position, slot_of, Group, UserBalance,
};
use crate::{
    add_user_outcome, deposit_error, remove_user_outcome, withdraw_error, Deposit, Withdraw,
};

verus! {

/// Whatever sequence of additions and removals a group goes through, its ledger
/// stays well formed and holds at most `MAX_GROUP_USERS` members: each step keeps it so.
pub proof fn lemma_membership_changes_keep_capacity(
    bals: Seq<UserBalance>,
    payer: Seq<u8>,
    user: Key,
)
    requires
        ledger_wf(bals),
    ensures
        add_user_outcome(bals, payer, user) matches Ok(s) ==> ledger_wf(s) && s.len()
            <= MAX_GROUP_USERS,
        remove_user_outcome(bals, payer, user@) matches Ok(s) ==> ledger_wf(s) && s.len()
            <= MAX_GROUP_USERS,
{
    lemma_add_keeps_ledger_wf(bals, user, 0);
    lemma_remove_keeps_ledger_wf(bals, user@);
}

/// The admin's entry is never removed: removing it fails with `CannotRemoveAdmin`,
/// and the removal instruction fails whoever asks for it.
pub proof fn lemma_admin_never_removed(bals: Seq<UserBalance>, payer: Seq<u8>)
    requires
        ledger_wf(bals),
        bals.len() >= 1,
    ensures
        ledger_remove(bals, bals[0].user@) == Err::<Seq<UserBalance>, ErrorCode>(
            ErrorCode::CannotRemoveAdmin,
        ),
        remove_user_outcome(bals, payer, bals[0].user@) is Err,
        payer == bals[0].user@ ==> remove_user_outcome(bals, payer, bals[0].user@) == Err::<
            Seq<UserBalance>,
            ErrorCode,
        >(ErrorCode::CannotRemoveAdmin),
{
    lemma_position_unique(bals, bals[0].user@, 0);
}

/// A member admitted to a group with an admin has balance 0; removing the member
/// then succeeds and gives back the ledger as it was, where the member has no balance.
pub proof fn lemma_add_remove_round_trip(bals: Seq<UserBalance>, user: Key)
    requires
        ledger_wf(bals),
        bals.len() >= 1,
        ledger_add(bals, user, 0) is Ok,
    ensures
        ledger_add(bals, user, 0) matches Ok(s) && balance_of(s, user@) == Some(0i64)
            && ledger_remove(s, user@) == Ok::<Seq<UserBalance>, ErrorCode>(bals),
        balance_of(bals, user@) is None,
{
    let s = ledger_add(bals, user, 0)->Ok_0;
    lemma_add_keeps_ledger_wf(bals, user, 0);
    let last = s.len() - 1;
    assert(slot_of(s, user@, last));
    lemma_position_unique(s, user@, last);
    assert(s.remove(last) =~= bals);
}

/// Adding an amount that takes an approved member's balance out of the range of
/// `i64` fails with `AmountOverflow`, which leaves the ledger as it was.
pub proof fn lemma_overflow_fails_closed(bals: Seq<UserBalance>, user: Seq<u8>, amount: i64)
    requires
        ledger_wf(bals),
        is_member(bals, user),
        bals[position(bals, user)].approved,
        bals[position(bals, user)].balance + amount > i64::MAX || bals[position(bals, user)].balance
            + amount < i64::MIN,
    ensures
        ledger_change(bals, user, amount as int) == Err::<Seq<UserBalance>, ErrorCode>(
            ErrorCode::AmountOverflow,
        ),
{
}

/// Approving a member changes only the member's flag and keeps everyone's position.
proof fn lemma_approve_keeps_positions(bals: Seq<UserBalance>, user: Seq<u8>)
    requires
        ledger_wf(bals),
        is_member(bals, user),
    ensures
        ledger_approve(bals, user) matches Ok(s) && ledger_wf(s) && is_member(s, user) && position(
            s,
            user,
        ) == position(bals, user) && s[position(s, user)].approved && s[position(s, user)].balance
            == bals[position(bals, user)].balance,
{
    let p = position(bals, user);
    assert(slot_of(bals, user, p));
    let s = ledger_approve(bals, user)->Ok_0;
    assert(distinct_users(s)) by {
        assert forall|i: int, j: int|
            0 <= i < s.len() && 0 <= j < s.len() && i != j implies s[i].user@ != s[j].user@ by {
            assert(s[i].user == bals[i].user);
            assert(s[j].user == bals[j].user);
        }
    }
    assert(slot_of(s, user, p));
    lemma_position_unique(s, user, p);
}

/// A balance change on an unapproved member fails with `UserNotApproved`; once the
/// member has approved, the same change succeeds wherever it stays within `i64`.
pub proof fn lemma_change_needs_approval(bals: Seq<UserBalance>, user: Seq<u8>, amount: int)
    requires
        ledger_wf(bals),
        is_member(bals, user),
        !bals[position(bals, user)].approved,
    ensures
        ledger_change(bals, user, amount) == Err::<Seq<UserBalance>, ErrorCode>(
            ErrorCode::UserNotApproved,
        ),
        i64::MIN <= bals[position(bals, user)].balance + amount <= i64::MAX ==> (ledger_approve(
            bals,
            user,
        ) matches Ok(s) && ledger_change(s, user, amount) is Ok),
{
    lemma_approve_keeps_positions(bals, user);
}

/// A deposit by an unapproved member always fails. Where it failed only for want of
/// approval, it succeeds once the member has approved (`after` is `before` with the
/// payer approved) and the balance can take the amount.
pub proof fn lemma_deposit_needs_approval(before: Group, after: Group, accounts: Deposit, amount: u64)
    requires
        before.wf(),
        is_member(before.balances@, accounts.payer@),
        !before.balances@[position(before.balances@, accounts.payer@)].approved,
        after.currency == before.currency,
        after.escrow == before.escrow,
        ledger_approve(before.balances@, accounts.payer@) == Ok::<Seq<UserBalance>, ErrorCode>(
            after.balances@,
        ),
    ensures
        deposit_error(before, accounts, amount) is Some,
        deposit_error(before, accounts, amount) == Some(ErrorCode::UserNotApproved)
            && before.balances@[position(before.balances@, accounts.payer@)].balance + amount
            <= i64::MAX ==> deposit_error(after, accounts, amount) is None,
{
    lemma_change_needs_approval(before.balances@, accounts.payer@, amount as int);
}

/// A withdrawal by an unapproved member always fails. Where it failed only for want
/// of approval, it succeeds once the member has approved (`after` is `before` with
/// the payer approved).
pub proof fn lemma_withdraw_needs_approval(
    before: Group,
    after: Group,
    accounts: Withdraw,
    program_id: Seq<u8>,
    amount: u64,
)
    requires
        before.wf(),
        is_member(before.balances@, accounts.payer@),
        !before.balances@[position(before.balances@, accounts.payer@)].approved,
        after.currency == before.currency,
        after.escrow == before.escrow,
        ledger_approve(before.balances@, accounts.payer@) == Ok::<Seq<UserBalance>, ErrorCode>(
            after.balances@,
        ),
    ensures
        withdraw_error(before, accounts, program_id, amount) is Some,
        withdraw_error(before, accounts, program_id, amount) == Some(ErrorCode::UserNotApproved)
            ==> withdraw_error(after, accounts, program_id, amount) is None,
{
    lemma_change_needs_approval(before.balances@, accounts.payer@, -amount);
}

} // verus!
