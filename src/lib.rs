//! A shared-expense ledger: a group of participants with running balances in one
//! token currency, backed by a pooled escrow account.
//!
//! Each instruction validates everything it reads before it changes anything, and
//! changes nothing when it fails. Token movements are described by a
//! [`TokenTransfer`] that the host performs; its outcome is then settled with
//! [`complete_transfer`].
use vstd::prelude::*;

pub mod address;
pub mod constants;
pub mod error;
pub mod key;
pub mod lemmas;
pub mod state;
pub mod token;

use crate::address::{find_program_address, program_address_of};
use crate::constants::{ESCROW_AUTHORITY_SEED, MAX_GROUP_USERS};
use crate::error::ErrorCode;
use crate::key::Key;
use crate::state::{
    admin_of, applied, is_member, ledger_add, ledger_approve, ledger_change, ledger_remove,
    ledger_transfer_admin, position, Group, UserBalance,
};
use crate::token::{
    mint_valid, token_account_valid, token_amount, token_has_close_authority, token_has_delegate,
    token_is_frozen, token_mint, token_owner, unpack_token_account, unpacks_as_mint, AccountData,
};

verus! {

/// The accounts of group creation. `group` is the address the new group is stored at.
pub struct CreateGroup {
    pub group: Key,
    pub currency: AccountData,
    pub escrow: AccountData,
    pub payer: Key,
    pub admin: Key,
}

/// The signer of a membership change.
pub struct ModifyUser {
    pub payer: Key,
}

/// The accounts of a cost split: the member who paid, and the protocol admin's signature.
pub struct UpdateBalances {
    pub payer: Key,
    pub admin: Key,
}

/// The accounts of a deposit into the escrow.
pub struct Deposit {
    pub sender: AccountData,
    pub escrow: AccountData,
    pub payer: Key,
    pub token_program: Key,
}

/// The accounts of a withdrawal from the escrow. `group` is the group's address.
pub struct Withdraw {
    pub group: Key,
    pub recipient: AccountData,
    pub escrow: AccountData,
    pub payer: Key,
    pub token_program: Key,
}

/// A token movement for the host to perform, and the ledger change that follows it.
/// `signer_bump` is set when the escrow authority signs, with the bump seed of
/// its derived address.
#[derive(Clone, Copy, Debug)]
pub struct TokenTransfer {
    pub source: Key,
    pub destination: Key,
    pub authority: Key,
    pub signer_bump: Option<u8>,
    pub amount: u64,
    pub user: Key,
    pub delta: i64,
}

/// The escrow owner is the authority derived from the group's address.
pub open spec fn owned_by_group_authority(escrow: Seq<u8>, group: Seq<u8>, program_id: Seq<u8>) -> bool {
    match program_address_of(ESCROW_AUTHORITY_SEED@, group, program_id) {
        Some((authority, _)) => token_owner(escrow) == authority,
        None => false,
    }
}

/// The first check that group creation fails, if any.
pub open spec fn create_group_error(a: CreateGroup, program_id: Seq<u8>, protocol_admin: Seq<u8>) -> Option<
    ErrorCode,
> {
    let esc = a.escrow.data@;
    if !mint_valid(a.currency.data@) {
        Some(ErrorCode::InvalidCurrencyAccount)
    } else if !token_account_valid(esc) {
        Some(ErrorCode::InvalidEscrowAccount)
    } else if a.admin@ != protocol_admin {
        Some(ErrorCode::Unauthorized)
    } else if a.currency.owner@ != a.escrow.owner@ {
        Some(ErrorCode::InconsistentTokenPrograms)
    } else if !owned_by_group_authority(esc, a.group@, program_id) {
        Some(ErrorCode::InconsistentEscrowOwner)
    } else if token_mint(esc) != a.currency.key@ {
        Some(ErrorCode::InconsistentEscrowMint)
    } else if token_has_delegate(esc) {
        Some(ErrorCode::EscrowHasDelegate)
    } else if token_is_frozen(esc) {
        Some(ErrorCode::EscrowIsFrozen)
    } else if token_has_close_authority(esc) {
        Some(ErrorCode::EscrowHasCloseAuthority)
    } else {
        None
    }
}

/// Only the admin adds members, who join with a zero balance.
pub open spec fn add_user_outcome(bals: Seq<UserBalance>, payer: Seq<u8>, user: Key) -> Result<
    Seq<UserBalance>,
    ErrorCode,
> {
    match admin_of(bals) {
        None => Err(ErrorCode::UserDoesNotExist),
        Some(admin) => if payer != admin@ {
            Err(ErrorCode::UnauthorizedAdd)
        } else {
            ledger_add(bals, user, 0)
        },
    }
}

/// The admin, or the member themself, removes a member.
pub open spec fn remove_user_outcome(bals: Seq<UserBalance>, payer: Seq<u8>, user: Seq<u8>) -> Result<
    Seq<UserBalance>,
    ErrorCode,
> {
    match admin_of(bals) {
        None => Err(ErrorCode::UserDoesNotExist),
        Some(admin) => if payer != admin@ && payer != user {
            Err(ErrorCode::UnauthorizedRemove)
        } else {
            ledger_remove(bals, user)
        },
    }
}

/// Only the admin hands the admin position on.
pub open spec fn transfer_admin_outcome(bals: Seq<UserBalance>, payer: Seq<u8>, user: Seq<u8>) -> Result<
    Seq<UserBalance>,
    ErrorCode,
> {
    match admin_of(bals) {
        None => Err(ErrorCode::UserDoesNotExist),
        Some(admin) => if payer != admin@ {
            Err(ErrorCode::UnauthorizedTransfer)
        } else {
            ledger_transfer_admin(bals, user)
        },
    }
}

/// Debiting `users[k]` by `amounts[k]` for each `k < n` in turn; every amount must be positive.
pub open spec fn debit_all(bals: Seq<UserBalance>, users: Seq<Key>, amounts: Seq<i64>, n: nat) -> Result<
    Seq<UserBalance>,
    ErrorCode,
>
    decreases n,
{
    if n == 0 {
        Ok(bals)
    } else {
        match debit_all(bals, users, amounts, (n - 1) as nat) {
            Err(e) => Err(e),
            Ok(s) => if amounts[n - 1] <= 0 {
                Err(ErrorCode::AmountIsNotPositive)
            } else {
                ledger_change(s, users[n - 1]@, -amounts[n - 1])
            },
        }
    }
}

/// A cost split: the payer is credited `total_cost`, then each listed user is debited.
pub open spec fn update_balances_outcome(
    bals: Seq<UserBalance>,
    a: UpdateBalances,
    protocol_admin: Seq<u8>,
    total_cost: i64,
    users: Seq<Key>,
    amounts: Seq<i64>,
) -> Result<Seq<UserBalance>, ErrorCode> {
    if a.admin@ != protocol_admin {
        Err(ErrorCode::Unauthorized)
    } else if users.len() != amounts.len() {
        Err(ErrorCode::InconsistentBalanceLengths)
    } else if total_cost <= 0 {
        Err(ErrorCode::AmountIsNotPositive)
    } else {
        match ledger_change(bals, a.payer@, total_cost as int) {
            Err(e) => Err(e),
            Ok(s) => debit_all(s, users, amounts, amounts.len()),
        }
    }
}

/// The first check that a deposit fails, if any.
pub open spec fn deposit_error(g: Group, a: Deposit, amount: u64) -> Option<ErrorCode> {
    let d = a.sender.data@;
    if !token_account_valid(d) {
        Some(ErrorCode::InvalidSenderAccount)
    } else if amount == 0 {
        Some(ErrorCode::AmountIsNotPositive)
    } else if token_mint(d) != g.currency@ {
        Some(ErrorCode::InconsistentSenderMint)
    } else if a.token_program@ != a.sender.owner@ || a.token_program@ != a.escrow.owner@ {
        Some(ErrorCode::InconsistentTokenPrograms)
    } else if a.escrow.key@ != g.escrow@ {
        Some(ErrorCode::InconsistentEscrow)
    } else if a.payer@ != token_owner(d) {
        Some(ErrorCode::InconsistentSenderOwner)
    } else if token_is_frozen(d) {
        Some(ErrorCode::SenderIsFrozen)
    } else if amount > i64::MAX {
        Some(ErrorCode::AmountOverflow)
    } else {
        match ledger_change(g.balances@, a.payer@, amount as int) {
            Err(e) => Some(e),
            Ok(_) => None,
        }
    }
}

/// The first check that a withdrawal fails, if any.
pub open spec fn withdraw_error(g: Group, a: Withdraw, program_id: Seq<u8>, amount: u64) -> Option<
    ErrorCode,
> {
    let bals = g.balances@;
    let r = a.recipient.data@;
    let e = a.escrow.data@;
    if !is_member(bals, a.payer@) {
        Some(ErrorCode::UserDoesNotExist)
    } else if !token_account_valid(r) {
        Some(ErrorCode::InvalidRecipientAccount)
    } else if !token_account_valid(e) {
        Some(ErrorCode::InvalidEscrowAccount)
    } else if amount == 0 {
        Some(ErrorCode::AmountIsNotPositive)
    } else if bals[position(bals, a.payer@)].balance < amount {
        Some(ErrorCode::InsufficientUserBalance)
    } else if token_amount(e) < amount {
        Some(ErrorCode::InsufficientEscrowBalance)
    } else if token_mint(r) != g.currency@ {
        Some(ErrorCode::InconsistentRecipientMint)
    } else if a.token_program@ != a.recipient.owner@ || a.token_program@ != a.escrow.owner@ {
        Some(ErrorCode::InconsistentTokenPrograms)
    } else if a.escrow.key@ != g.escrow@ {
        Some(ErrorCode::InconsistentEscrow)
    } else if a.payer@ != token_owner(r) {
        Some(ErrorCode::InconsistentRecipientOwner)
    } else if token_is_frozen(r) {
        Some(ErrorCode::RecipientIsFrozen)
    } else if program_address_of(ESCROW_AUTHORITY_SEED@, a.group@, program_id) is None {
        Some(ErrorCode::TransferFailed)
    } else {
        match ledger_change(bals, a.payer@, -amount) {
            Err(e) => Some(e),
            Ok(_) => None,
        }
    }
}

/// Once `debit_all` fails, debiting further entries fails the same way.
proof fn lemma_debit_error_persists(
    bals: Seq<UserBalance>,
    users: Seq<Key>,
    amounts: Seq<i64>,
    k: nat,
    n: nat,
)
    requires
        k <= n,
        debit_all(bals, users, amounts, k) is Err,
    ensures
        debit_all(bals, users, amounts, n) == debit_all(bals, users, amounts, k),
    decreases n,
{
    if n > k {
        lemma_debit_error_persists(bals, users, amounts, k, (n - 1) as nat);
    }
}

/// Creates a group whose escrow is checked to be an unencumbered token account of
/// the currency, held by the authority derived from the group's address. The payer
/// becomes its admin, approved, with a zero balance.
pub fn create_group(accounts: &CreateGroup, program_id: &Key, protocol_admin: &Key) -> (r: Result<
    Group,
    ErrorCode,
>)
    ensures
        r is Ok <==> create_group_error(*accounts, program_id@, protocol_admin@) is None,
        r matches Err(e) ==> create_group_error(*accounts, program_id@, protocol_admin@) == Some(e),
        r matches Ok(g) ==> {
            &&& g.wf()
            &&& g.currency == accounts.currency.key
            &&& g.escrow == accounts.escrow.key
            &&& g.balances@ == seq![(UserBalance { user: accounts.payer, balance: 0, approved: true })]
        },
{
    let authority = find_program_address(ESCROW_AUTHORITY_SEED, &accounts.group, program_id);
    if !unpacks_as_mint(&accounts.currency.data) {
        return Err(ErrorCode::InvalidCurrencyAccount);
    }
    let escrow = match unpack_token_account(&accounts.escrow.data) {
        None => {
            return Err(ErrorCode::InvalidEscrowAccount);
        },
        Some(a) => a,
    };
    if !(accounts.admin == *protocol_admin) {
        return Err(ErrorCode::Unauthorized);
    }
    if !(accounts.currency.owner == accounts.escrow.owner) {
        return Err(ErrorCode::InconsistentTokenPrograms);
    }
    match authority {
        None => {
            return Err(ErrorCode::InconsistentEscrowOwner);
        },
        Some((k, _)) => {
            if !(escrow.owner == k) {
                return Err(ErrorCode::InconsistentEscrowOwner);
            }
        },
    }
    if !(escrow.mint == accounts.currency.key) {
        return Err(ErrorCode::InconsistentEscrowMint);
    }
    if escrow.delegate.is_some() {
        return Err(ErrorCode::EscrowHasDelegate);
    }
    if escrow.is_frozen {
        return Err(ErrorCode::EscrowIsFrozen);
    }
    if escrow.close_authority.is_some() {
        return Err(ErrorCode::EscrowHasCloseAuthority);
    }
    let mut group = Group {
        currency: accounts.currency.key,
        escrow: accounts.escrow.key,
        balances: Vec::with_capacity(MAX_GROUP_USERS),
    };
    let added = group.add_balance(accounts.payer, 0);
    proof {
        assert(!is_member(Seq::<UserBalance>::empty(), accounts.payer@));
    }
    if added.is_err() {
        return Err(ErrorCode::UserAlreadyExists);
    }
    let approved = group.approve_balance(accounts.payer);
    proof {
        crate::state::lemma_position_unique(group.balances@, accounts.payer@, 0);
    }
    if approved.is_err() {
        return Err(ErrorCode::UserDoesNotExist);
    }
    assert(group.balances@ =~= seq![(UserBalance { user: accounts.payer, balance: 0, approved: true })]);
    Ok(group)
}

/// The admin admits `user`, unapproved and with a zero balance.
pub fn add_user(group: &mut Group, accounts: &ModifyUser, user: Key) -> (r: Result<(), ErrorCode>)
    requires
        old(group).wf(),
    ensures
        final(group).wf(),
        final(group).currency == old(group).currency,
        final(group).escrow == old(group).escrow,
        applied(
            r,
            old(group).balances@,
            final(group).balances@,
            add_user_outcome(old(group).balances@, accounts.payer@, user),
        ),
{
    match group.get_admin() {
        None => Err(ErrorCode::UserDoesNotExist),
        Some(admin) => {
            if !(accounts.payer == admin) {
                return Err(ErrorCode::UnauthorizedAdd);
            }
            group.add_balance(user, 0)
        },
    }
}

/// A member approves their own membership.
pub fn approve_user(group: &mut Group, accounts: &ModifyUser) -> (r: Result<(), ErrorCode>)
    requires
        old(group).wf(),
    ensures
        final(group).wf(),
        final(group).currency == old(group).currency,
        final(group).escrow == old(group).escrow,
        applied(
            r,
            old(group).balances@,
            final(group).balances@,
            ledger_approve(old(group).balances@, accounts.payer@),
        ),
{
    group.approve_balance(accounts.payer)
}

/// The admin, or `user` themself, removes `user`, whose balance must be zero.
pub fn remove_user(group: &mut Group, accounts: &ModifyUser, user: Key) -> (r: Result<(), ErrorCode>)
    requires
        old(group).wf(),
    ensures
        final(group).wf(),
        final(group).currency == old(group).currency,
        final(group).escrow == old(group).escrow,
        applied(
            r,
            old(group).balances@,
            final(group).balances@,
            remove_user_outcome(old(group).balances@, accounts.payer@, user@),
        ),
{
    match group.get_admin() {
        None => Err(ErrorCode::UserDoesNotExist),
        Some(admin) => {
            if !(accounts.payer == admin) && !(accounts.payer == user) {
                return Err(ErrorCode::UnauthorizedRemove);
            }
            group.remove_balance(user)
        },
    }
}

/// The admin swaps places with the approved member `user`.
pub fn transfer_admin(group: &mut Group, accounts: &ModifyUser, user: Key) -> (r: Result<
    (),
    ErrorCode,
>)
    requires
        old(group).wf(),
    ensures
        final(group).wf(),
        final(group).currency == old(group).currency,
        final(group).escrow == old(group).escrow,
        applied(
            r,
            old(group).balances@,
            final(group).balances@,
            transfer_admin_outcome(old(group).balances@, accounts.payer@, user@),
        ),
{
    match group.get_admin() {
        None => Err(ErrorCode::UserDoesNotExist),
        Some(admin) => {
            if !(accounts.payer == admin) {
                return Err(ErrorCode::UnauthorizedTransfer);
            }
            group.transfer_admin(user)
        },
    }
}

/// Splits a cost: credits the payer with `total_cost` and debits each of `users`
/// by the matching entry of `amounts`. Either every change is made or none.
pub fn update_balances(
    group: &mut Group,
    accounts: &UpdateBalances,
    protocol_admin: &Key,
    total_cost: i64,
    users: &Vec<Key>,
    amounts: &Vec<i64>,
) -> (r: Result<(), ErrorCode>)
    requires
        old(group).wf(),
    ensures
        final(group).wf(),
        final(group).currency == old(group).currency,
        final(group).escrow == old(group).escrow,
        applied(
            r,
            old(group).balances@,
            final(group).balances@,
            update_balances_outcome(
                old(group).balances@,
                *accounts,
                protocol_admin@,
                total_cost,
                users@,
                amounts@,
            ),
        ),
{
    if !(accounts.admin == *protocol_admin) {
        return Err(ErrorCode::Unauthorized);
    }
    if users.len() != amounts.len() {
        return Err(ErrorCode::InconsistentBalanceLengths);
    }
    if total_cost <= 0 {
        return Err(ErrorCode::AmountIsNotPositive);
    }
    let mut work = Group { currency: group.currency, escrow: group.escrow, balances: group.copy_balances() };
    match work.change_balance(accounts.payer, total_cost) {
        Err(e) => {
            return Err(e);
        },
        Ok(()) => {},
    }
    let ghost credited = work.balances@;
    let mut i: usize = 0;
    while i < amounts.len()
        invariant
            work.wf(),
            old(group).wf(),
            group.balances@ == old(group).balances@,
            group.currency == old(group).currency,
            group.escrow == old(group).escrow,
            update_balances_outcome(
                old(group).balances@,
                *accounts,
                protocol_admin@,
                total_cost,
                users@,
                amounts@,
            ) == debit_all(credited, users@, amounts@, amounts@.len()),
            users@.len() == amounts@.len(),
            i <= amounts@.len(),
            debit_all(credited, users@, amounts@, i as nat) == Ok::<Seq<UserBalance>, ErrorCode>(
                work.balances@,
            ),
        decreases amounts@.len() - i,
    {
        let amount = amounts[i];
        if amount <= 0 {
            proof {
                lemma_debit_error_persists(
                    credited,
                    users@,
                    amounts@,
                    (i + 1) as nat,
                    amounts@.len(),
                );
            }
            return Err(ErrorCode::AmountIsNotPositive);
        }
        match work.change_balance(users[i], -amount) {
            Err(e) => {
                proof {
                    lemma_debit_error_persists(
                        credited,
                        users@,
                        amounts@,
                        (i + 1) as nat,
                        amounts@.len(),
                    );
                }
                return Err(e);
            },
            Ok(()) => {},
        }
        i = i + 1;
    }
    group.balances = work.balances;
    Ok(())
}

/// Checks a deposit of `amount` from the payer's token account into the escrow,
/// and returns the transfer to perform. The payer must be an approved member
/// whose balance can take the amount.
pub fn deposit(group: &Group, accounts: &Deposit, amount: u64) -> (r: Result<
    TokenTransfer,
    ErrorCode,
>)
    requires
        group.wf(),
    ensures
        r is Ok <==> deposit_error(*group, *accounts, amount) is None,
        r matches Err(e) ==> deposit_error(*group, *accounts, amount) == Some(e),
        r matches Ok(t) ==> t == (TokenTransfer {
            source: accounts.sender.key,
            destination: accounts.escrow.key,
            authority: accounts.payer,
            signer_bump: None,
            amount,
            user: accounts.payer,
            delta: amount as i64,
        }),
        r matches Ok(t) ==> ledger_change(group.balances@, t.user@, t.delta as int) is Ok,
{
    let sender = match unpack_token_account(&accounts.sender.data) {
        None => {
            return Err(ErrorCode::InvalidSenderAccount);
        },
        Some(a) => a,
    };
    if amount == 0 {
        return Err(ErrorCode::AmountIsNotPositive);
    }
    if !(sender.mint == group.currency) {
        return Err(ErrorCode::InconsistentSenderMint);
    }
    if !(accounts.token_program == accounts.sender.owner) || !(accounts.token_program
        == accounts.escrow.owner) {
        return Err(ErrorCode::InconsistentTokenPrograms);
    }
    if !(accounts.escrow.key == group.escrow) {
        return Err(ErrorCode::InconsistentEscrow);
    }
    if !(accounts.payer == sender.owner) {
        return Err(ErrorCode::InconsistentSenderOwner);
    }
    if sender.is_frozen {
        return Err(ErrorCode::SenderIsFrozen);
    }
    if amount > i64::MAX as u64 {
        return Err(ErrorCode::AmountOverflow);
    }
    let delta = amount as i64;
    match group.balance_after(&accounts.payer, delta) {
        Err(e) => {
            return Err(e);
        },
        Ok(_) => {},
    }
    Ok(
        TokenTransfer {
            source: accounts.sender.key,
            destination: accounts.escrow.key,
            authority: accounts.payer,
            signer_bump: None,
            amount,
            user: accounts.payer,
            delta,
        },
    )
}

/// Checks a withdrawal of `amount` from the escrow to the payer's token account,
/// and returns the transfer to perform, signed by the escrow authority. The payer
/// must be an approved member with at least `amount` on the ledger.
pub fn withdraw(group: &Group, accounts: &Withdraw, program_id: &Key, amount: u64) -> (r: Result<
    TokenTransfer,
    ErrorCode,
>)
    requires
        group.wf(),
    ensures
        r is Ok <==> withdraw_error(*group, *accounts, program_id@, amount) is None,
        r matches Err(e) ==> withdraw_error(*group, *accounts, program_id@, amount) == Some(e),
        r matches Ok(t) ==> {
            &&& t.source == accounts.escrow.key
            &&& t.destination == accounts.recipient.key
            &&& t.amount == amount
            &&& t.user == accounts.payer
            &&& t.delta == -amount
            &&& t.signer_bump is Some
            &&& program_address_of(ESCROW_AUTHORITY_SEED@, accounts.group@, program_id@) == Some(
                (t.authority@, t.signer_bump->0),
            )
            &&& ledger_change(group.balances@, t.user@, t.delta as int) is Ok
        },
{
    let balance = match group.get_balance(accounts.payer) {
        None => {
            return Err(ErrorCode::UserDoesNotExist);
        },
        Some(b) => b,
    };
    let recipient = match unpack_token_account(&accounts.recipient.data) {
        None => {
            return Err(ErrorCode::InvalidRecipientAccount);
        },
        Some(a) => a,
    };
    let escrow = match unpack_token_account(&accounts.escrow.data) {
        None => {
            return Err(ErrorCode::InvalidEscrowAccount);
        },
        Some(a) => a,
    };
    if amount == 0 {
        return Err(ErrorCode::AmountIsNotPositive);
    }
    if balance < 0 || (balance as u64) < amount {
        return Err(ErrorCode::InsufficientUserBalance);
    }
    if escrow.amount < amount {
        return Err(ErrorCode::InsufficientEscrowBalance);
    }
    if !(recipient.mint == group.currency) {
        return Err(ErrorCode::InconsistentRecipientMint);
    }
    if !(accounts.token_program == accounts.recipient.owner) || !(accounts.token_program
        == accounts.escrow.owner) {
        return Err(ErrorCode::InconsistentTokenPrograms);
    }
    if !(accounts.escrow.key == group.escrow) {
        return Err(ErrorCode::InconsistentEscrow);
    }
    if !(accounts.payer == recipient.owner) {
        return Err(ErrorCode::InconsistentRecipientOwner);
    }
    if recipient.is_frozen {
        return Err(ErrorCode::RecipientIsFrozen);
    }
    let (authority, bump) = match find_program_address(
        ESCROW_AUTHORITY_SEED,
        &accounts.group,
        program_id,
    ) {
        None => {
            return Err(ErrorCode::TransferFailed);
        },
        Some(found) => found,
    };
    let delta = -(amount as i64);
    match group.balance_after(&accounts.payer, delta) {
        Err(e) => {
            return Err(e);
        },
        Ok(_) => {},
    }
    Ok(
        TokenTransfer {
            source: accounts.escrow.key,
            destination: accounts.recipient.key,
            authority,
            signer_bump: Some(bump),
            amount,
            user: accounts.payer,
            delta,
        },
    )
}

/// Settles a transfer that `deposit` or `withdraw` returned: the ledger change is
/// made only when the host reports that the tokens moved.
pub fn complete_transfer(group: &mut Group, transfer: &TokenTransfer, transferred: bool) -> (r:
    Result<(), ErrorCode>)
    requires
        old(group).wf(),
    ensures
        final(group).wf(),
        final(group).currency == old(group).currency,
        final(group).escrow == old(group).escrow,
        applied(
            r,
            old(group).balances@,
            final(group).balances@,
            if transferred {
                ledger_change(old(group).balances@, transfer.user@, transfer.delta as int)
            } else {
                Err(ErrorCode::TransferFailed)
            },
        ),
{
    if !transferred {
        return Err(ErrorCode::TransferFailed);
    }
    group.change_balance(transfer.user, transfer.delta)
}

} // verus!
