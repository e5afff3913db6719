use fatira::error::ErrorCode;
use fatira::key::Key;
use fatira::state::Group;
use fatira::token::AccountData;
use fatira::{
    add_user, approve_user, complete_transfer, create_group, deposit, remove_user,
    transfer_admin, update_balances, withdraw, CreateGroup, Deposit, ModifyUser, UpdateBalances,
    Withdraw,
};
use solana_program::program_option::COption;
use solana_program::program_pack::Pack;
use solana_program::pubkey::Pubkey;
use spl_token::state::{Account, AccountState, Mint};

const PROGRAM: u8 = 240;
const GROUP: u8 = 241;
const CURRENCY: u8 = 242;
const ESCROW: u8 = 243;
const TOKEN_PROGRAM: u8 = 244;
const PROTOCOL_ADMIN: u8 = 245;
const A: u8 = 1;
const B: u8 = 2;
const C: u8 = 3;

fn key(n: u8) -> Key {
    Key::new([n; 32])
}

fn pubkey(n: u8) -> Pubkey {
    Pubkey::new_from_array([n; 32])
}

fn authority() -> (Pubkey, u8) {
    Pubkey::find_program_address(&[b"authority", &[GROUP; 32]], &pubkey(PROGRAM))
}

fn mint_data() -> Vec<u8> {
    let mint = Mint {
        mint_authority: COption::None,
        supply: 1_000_000,
        decimals: 6,
        is_initialized: true,
        freeze_authority: COption::None,
    };
    let mut data = vec![0u8; Mint::LEN];
    Mint::pack(mint, &mut data).unwrap();
    data
}

fn token_data(mint: Pubkey, owner: Pubkey, amount: u64) -> Account {
    Account {
        mint,
        owner,
        amount,
        delegate: COption::None,
        state: AccountState::Initialized,
        is_native: COption::None,
        delegated_amount: 0,
        close_authority: COption::None,
    }
}

fn packed(account: Account) -> Vec<u8> {
    let mut data = vec![0u8; Account::LEN];
    Account::pack(account, &mut data).unwrap();
    data
}

fn account(k: Key, owner: u8, data: Vec<u8>) -> AccountData {
    AccountData { key: k, owner: key(owner), data }
}

fn create_accounts(escrow: Account) -> CreateGroup {
    CreateGroup {
        group: key(GROUP),
        currency: account(key(CURRENCY), TOKEN_PROGRAM, mint_data()),
        escrow: account(key(ESCROW), TOKEN_PROGRAM, packed(escrow)),
        payer: key(A),
        admin: key(PROTOCOL_ADMIN),
    }
}

fn good_escrow(amount: u64) -> Account {
    token_data(pubkey(CURRENCY), authority().0, amount)
}

fn create(escrow: Account) -> Result<Group, ErrorCode> {
    create_group(&create_accounts(escrow), &key(PROGRAM), &key(PROTOCOL_ADMIN))
}

fn signer(n: u8) -> ModifyUser {
    ModifyUser { payer: key(n) }
}

fn balance(g: &Group, n: u8) -> Option<i64> {
    g.get_balance(key(n))
}

/// A group with admin A and approved members B and C.
fn group_abc() -> Group {
    let mut g = create(good_escrow(0)).unwrap();
    add_user(&mut g, &signer(A), key(B)).unwrap();
    add_user(&mut g, &signer(A), key(C)).unwrap();
    approve_user(&mut g, &signer(B)).unwrap();
    approve_user(&mut g, &signer(C)).unwrap();
    g
}

fn split(g: &mut Group, admin: u8, total: i64, users: Vec<u8>, amounts: Vec<i64>) -> Result<(), ErrorCode> {
    let users: Vec<Key> = users.into_iter().map(key).collect();
    update_balances(g, &UpdateBalances { payer: key(A), admin: key(admin) }, &key(PROTOCOL_ADMIN), total, &users, &amounts)
}

fn deposit_accounts(payer: u8, sender: Account) -> Deposit {
    Deposit {
        sender: account(key(50), TOKEN_PROGRAM, packed(sender)),
        escrow: account(key(ESCROW), TOKEN_PROGRAM, packed(good_escrow(0))),
        payer: key(payer),
        token_program: key(TOKEN_PROGRAM),
    }
}

fn withdraw_accounts(payer: u8, recipient: Account, escrow_amount: u64) -> Withdraw {
    Withdraw {
        group: key(GROUP),
        recipient: account(key(60), TOKEN_PROGRAM, packed(recipient)),
        escrow: account(key(ESCROW), TOKEN_PROGRAM, packed(good_escrow(escrow_amount))),
        payer: key(payer),
        token_program: key(TOKEN_PROGRAM),
    }
}

fn do_withdraw(g: &Group, accounts: &Withdraw, amount: u64) -> Result<fatira::TokenTransfer, ErrorCode> {
    withdraw(g, accounts, &key(PROGRAM), amount)
}

#[test]
fn create_group_admits_payer_as_approved_admin() {
    let g = create(good_escrow(0)).unwrap();
    assert!(g.currency == key(CURRENCY));
    assert!(g.escrow == key(ESCROW));
    assert_eq!(g.balances.len(), 1);
    assert_eq!(g.get_admin(), Some(key(A)));
    assert_eq!(balance(&g, A), Some(0));
    assert!(g.balances[0].approved);
}

#[test]
fn create_group_requires_protocol_admin() {
    let accounts = create_accounts(good_escrow(0));
    let r = create_group(&accounts, &key(PROGRAM), &key(A));
    assert_eq!(r.err(), Some(ErrorCode::Unauthorized));
}

#[test]
fn create_group_rejects_bad_currency() {
    let mut accounts = create_accounts(good_escrow(0));
    accounts.currency.data.pop();
    let r = create_group(&accounts, &key(PROGRAM), &key(PROTOCOL_ADMIN));
    assert_eq!(r.err(), Some(ErrorCode::InvalidCurrencyAccount));
    let mut accounts = create_accounts(good_escrow(0));
    accounts.currency.data[45] = 0;
    let r = create_group(&accounts, &key(PROGRAM), &key(PROTOCOL_ADMIN));
    assert_eq!(r.err(), Some(ErrorCode::InvalidCurrencyAccount));
}

#[test]
fn create_group_rejects_bad_escrow_data() {
    let mut uninitialized = good_escrow(0);
    uninitialized.state = AccountState::Uninitialized;
    assert_eq!(create(uninitialized).err(), Some(ErrorCode::InvalidEscrowAccount));
    let mut accounts = create_accounts(good_escrow(0));
    accounts.escrow.data[72] = 5;
    let r = create_group(&accounts, &key(PROGRAM), &key(PROTOCOL_ADMIN));
    assert_eq!(r.err(), Some(ErrorCode::InvalidEscrowAccount));
}

#[test]
fn create_group_rejects_mixed_token_programs() {
    let mut accounts = create_accounts(good_escrow(0));
    accounts.escrow.owner = key(99);
    let r = create_group(&accounts, &key(PROGRAM), &key(PROTOCOL_ADMIN));
    assert_eq!(r.err(), Some(ErrorCode::InconsistentTokenPrograms));
}

#[test]
fn create_group_rejects_foreign_escrow_owner() {
    assert_eq!(create(token_data(pubkey(CURRENCY), pubkey(A), 0)).err(), Some(ErrorCode::InconsistentEscrowOwner));
    let accounts = create_accounts(good_escrow(0));
    let r = create_group(&accounts, &key(77), &key(PROTOCOL_ADMIN));
    assert_eq!(r.err(), Some(ErrorCode::InconsistentEscrowOwner));
}

#[test]
fn create_group_rejects_other_currency() {
    let escrow = token_data(pubkey(99), authority().0, 0);
    assert_eq!(create(escrow).err(), Some(ErrorCode::InconsistentEscrowMint));
}

#[test]
fn create_group_rejects_encumbered_escrow() {
    let mut delegated = good_escrow(0);
    delegated.delegate = COption::Some(pubkey(9));
    assert_eq!(create(delegated).err(), Some(ErrorCode::EscrowHasDelegate));
    let mut frozen = good_escrow(0);
    frozen.state = AccountState::Frozen;
    assert_eq!(create(frozen).err(), Some(ErrorCode::EscrowIsFrozen));
    let mut closable = good_escrow(0);
    closable.close_authority = COption::Some(pubkey(9));
    assert_eq!(create(closable).err(), Some(ErrorCode::EscrowHasCloseAuthority));
}

#[test]
fn scenario_add_approve_change() {
    let mut g = create(good_escrow(0)).unwrap();
    assert_eq!(add_user(&mut g, &signer(A), key(B)), Ok(()));
    assert_eq!(balance(&g, B), Some(0));
    assert!(!g.balances[1].approved);
    assert_eq!(g.change_balance(key(B), 10), Err(ErrorCode::UserNotApproved));
    assert_eq!(approve_user(&mut g, &signer(B)), Ok(()));
    assert!(g.balances[1].approved);
    assert_eq!(g.change_balance(key(B), 10), Ok(()));
    assert_eq!(balance(&g, B), Some(10));
}

#[test]
fn add_user_only_by_admin() {
    let mut g = create(good_escrow(0)).unwrap();
    assert_eq!(add_user(&mut g, &signer(B), key(C)), Err(ErrorCode::UnauthorizedAdd));
    assert_eq!(g.balances.len(), 1);
    let mut empty = Group { currency: key(CURRENCY), escrow: key(ESCROW), balances: Vec::new() };
    assert_eq!(add_user(&mut empty, &signer(A), key(B)), Err(ErrorCode::UserDoesNotExist));
}

#[test]
fn approve_user_unknown_member() {
    let mut g = create(good_escrow(0)).unwrap();
    assert_eq!(approve_user(&mut g, &signer(B)), Err(ErrorCode::UserDoesNotExist));
}

#[test]
fn scenario_split_cost() {
    let mut g = group_abc();
    assert_eq!(split(&mut g, PROTOCOL_ADMIN, 300, vec![B, C], vec![150, 150]), Ok(()));
    assert_eq!(balance(&g, A), Some(300));
    assert_eq!(balance(&g, B), Some(-150));
    assert_eq!(balance(&g, C), Some(-150));
}

#[test]
fn update_balances_errors() {
    let mut g = group_abc();
    assert_eq!(split(&mut g, A, 300, vec![B, C], vec![150, 150]), Err(ErrorCode::Unauthorized));
    assert_eq!(split(&mut g, PROTOCOL_ADMIN, 300, vec![B, C], vec![150]), Err(ErrorCode::InconsistentBalanceLengths));
    assert_eq!(split(&mut g, PROTOCOL_ADMIN, 0, vec![B], vec![150]), Err(ErrorCode::AmountIsNotPositive));
    assert_eq!(split(&mut g, PROTOCOL_ADMIN, -5, vec![B], vec![150]), Err(ErrorCode::AmountIsNotPositive));
    assert_eq!(split(&mut g, PROTOCOL_ADMIN, 300, vec![B, C], vec![150, 0]), Err(ErrorCode::AmountIsNotPositive));
    assert_eq!(split(&mut g, PROTOCOL_ADMIN, 300, vec![B, 9], vec![150, 150]), Err(ErrorCode::UserDoesNotExist));
    assert_eq!(balance(&g, A), Some(0));
    assert_eq!(balance(&g, B), Some(0));
    assert_eq!(balance(&g, C), Some(0));
}

#[test]
fn update_balances_overflow_changes_nothing() {
    let mut g = group_abc();
    g.change_balance(key(C), i64::MIN + 10).unwrap();
    assert_eq!(split(&mut g, PROTOCOL_ADMIN, 100, vec![B, C], vec![50, 50]), Err(ErrorCode::AmountOverflow));
    assert_eq!(balance(&g, A), Some(0));
    assert_eq!(balance(&g, B), Some(0));
    assert_eq!(balance(&g, C), Some(i64::MIN + 10));
    g.change_balance(key(A), i64::MAX).unwrap();
    assert_eq!(split(&mut g, PROTOCOL_ADMIN, 1, vec![], vec![]), Err(ErrorCode::AmountOverflow));
}

#[test]
fn update_balances_debits_unapproved_member_fails() {
    let mut g = group_abc();
    add_user(&mut g, &signer(A), key(4)).unwrap();
    assert_eq!(split(&mut g, PROTOCOL_ADMIN, 10, vec![B, 4], vec![5, 5]), Err(ErrorCode::UserNotApproved));
    assert_eq!(balance(&g, A), Some(0));
    assert_eq!(balance(&g, B), Some(0));
}

#[test]
fn scenario_withdraw_more_than_balance() {
    let mut g = group_abc();
    g.change_balance(key(B), 100).unwrap();
    let accounts = withdraw_accounts(B, token_data(pubkey(CURRENCY), pubkey(B), 0), 1000);
    assert_eq!(do_withdraw(&g, &accounts, 101).err(), Some(ErrorCode::InsufficientUserBalance));
    assert_eq!(balance(&g, B), Some(100));
    assert_eq!(balance(&g, A), Some(0));
    let mut c = group_abc();
    c.change_balance(key(C), -5).unwrap();
    let accounts = withdraw_accounts(C, token_data(pubkey(CURRENCY), pubkey(C), 0), 1000);
    assert_eq!(do_withdraw(&c, &accounts, 1).err(), Some(ErrorCode::InsufficientUserBalance));
}

#[test]
fn withdraw_pays_out_and_settles() {
    let mut g = group_abc();
    g.change_balance(key(B), 100).unwrap();
    let accounts = withdraw_accounts(B, token_data(pubkey(CURRENCY), pubkey(B), 0), 1000);
    let t = do_withdraw(&g, &accounts, 40).unwrap();
    let (pda, bump) = authority();
    assert!(t.authority == Key::new(pda.to_bytes()));
    assert_eq!(t.signer_bump, Some(bump));
    assert!(t.source == key(ESCROW));
    assert!(t.destination == key(60));
    assert_eq!((t.amount, t.delta), (40, -40));
    assert_eq!(complete_transfer(&mut g, &t, true), Ok(()));
    assert_eq!(balance(&g, B), Some(60));
}

#[test]
fn withdraw_errors() {
    let mut g = group_abc();
    g.change_balance(key(B), 100).unwrap();
    let good = token_data(pubkey(CURRENCY), pubkey(B), 0);
    assert_eq!(do_withdraw(&g, &withdraw_accounts(9, good, 1000), 10).err(), Some(ErrorCode::UserDoesNotExist));
    let mut bad = withdraw_accounts(B, good, 1000);
    bad.recipient.data.truncate(10);
    assert_eq!(do_withdraw(&g, &bad, 10).err(), Some(ErrorCode::InvalidRecipientAccount));
    let mut bad = withdraw_accounts(B, good, 1000);
    bad.escrow.data[108] = 0;
    assert_eq!(do_withdraw(&g, &bad, 10).err(), Some(ErrorCode::InvalidEscrowAccount));
    assert_eq!(do_withdraw(&g, &withdraw_accounts(B, good, 1000), 0).err(), Some(ErrorCode::AmountIsNotPositive));
    assert_eq!(do_withdraw(&g, &withdraw_accounts(B, good, 5), 10).err(), Some(ErrorCode::InsufficientEscrowBalance));
    let other_mint = token_data(pubkey(99), pubkey(B), 0);
    assert_eq!(do_withdraw(&g, &withdraw_accounts(B, other_mint, 1000), 10).err(), Some(ErrorCode::InconsistentRecipientMint));
    let mut bad = withdraw_accounts(B, good, 1000);
    bad.token_program = key(98);
    assert_eq!(do_withdraw(&g, &bad, 10).err(), Some(ErrorCode::InconsistentTokenPrograms));
    let mut bad = withdraw_accounts(B, good, 1000);
    bad.escrow.key = key(97);
    assert_eq!(do_withdraw(&g, &bad, 10).err(), Some(ErrorCode::InconsistentEscrow));
    let foreign = token_data(pubkey(CURRENCY), pubkey(C), 0);
    assert_eq!(do_withdraw(&g, &withdraw_accounts(B, foreign, 1000), 10).err(), Some(ErrorCode::InconsistentRecipientOwner));
    let mut frozen = good;
    frozen.state = AccountState::Frozen;
    assert_eq!(do_withdraw(&g, &withdraw_accounts(B, frozen, 1000), 10).err(), Some(ErrorCode::RecipientIsFrozen));
}

#[test]
fn withdraw_needs_approval() {
    let mut g = group_abc();
    add_user(&mut g, &signer(A), key(4)).unwrap();
    g.balances[3].balance = 50;
    let accounts = withdraw_accounts(4, token_data(pubkey(CURRENCY), pubkey(4), 0), 1000);
    assert_eq!(do_withdraw(&g, &accounts, 10).err(), Some(ErrorCode::UserNotApproved));
    approve_user(&mut g, &signer(4)).unwrap();
    assert!(do_withdraw(&g, &accounts, 10).is_ok());
}

#[test]
fn deposit_credits_after_transfer() {
    let mut g = group_abc();
    let accounts = deposit_accounts(B, token_data(pubkey(CURRENCY), pubkey(B), 500));
    let t = deposit(&g, &accounts, 200).unwrap();
    assert!(t.source == key(50));
    assert!(t.destination == key(ESCROW));
    assert!(t.authority == key(B));
    assert_eq!(t.signer_bump, None);
    assert_eq!((t.amount, t.delta), (200, 200));
    assert_eq!(complete_transfer(&mut g, &t, false), Err(ErrorCode::TransferFailed));
    assert_eq!(balance(&g, B), Some(0));
    assert_eq!(complete_transfer(&mut g, &t, true), Ok(()));
    assert_eq!(balance(&g, B), Some(200));
}

#[test]
fn deposit_needs_approval() {
    let mut g = group_abc();
    add_user(&mut g, &signer(A), key(4)).unwrap();
    let accounts = deposit_accounts(4, token_data(pubkey(CURRENCY), pubkey(4), 500));
    assert_eq!(deposit(&g, &accounts, 10).err(), Some(ErrorCode::UserNotApproved));
    approve_user(&mut g, &signer(4)).unwrap();
    assert!(deposit(&g, &accounts, 10).is_ok());
}

#[test]
fn deposit_errors() {
    let g = group_abc();
    let good = token_data(pubkey(CURRENCY), pubkey(B), 500);
    let mut bad = deposit_accounts(B, good);
    bad.sender.data.push(0);
    assert_eq!(deposit(&g, &bad, 10).err(), Some(ErrorCode::InvalidSenderAccount));
    assert_eq!(deposit(&g, &deposit_accounts(B, good), 0).err(), Some(ErrorCode::AmountIsNotPositive));
    let other_mint = token_data(pubkey(99), pubkey(B), 500);
    assert_eq!(deposit(&g, &deposit_accounts(B, other_mint), 10).err(), Some(ErrorCode::InconsistentSenderMint));
    let mut bad = deposit_accounts(B, good);
    bad.escrow.owner = key(98);
    assert_eq!(deposit(&g, &bad, 10).err(), Some(ErrorCode::InconsistentTokenPrograms));
    let mut bad = deposit_accounts(B, good);
    bad.escrow.key = key(97);
    assert_eq!(deposit(&g, &bad, 10).err(), Some(ErrorCode::InconsistentEscrow));
    assert_eq!(deposit(&g, &deposit_accounts(C, good), 10).err(), Some(ErrorCode::InconsistentSenderOwner));
    let mut frozen = good;
    frozen.state = AccountState::Frozen;
    assert_eq!(deposit(&g, &deposit_accounts(B, frozen), 10).err(), Some(ErrorCode::SenderIsFrozen));
    assert_eq!(deposit(&g, &deposit_accounts(B, good), 1u64 << 63).err(), Some(ErrorCode::AmountOverflow));
    let stranger = token_data(pubkey(CURRENCY), pubkey(9), 500);
    assert_eq!(deposit(&g, &deposit_accounts(9, stranger), 10).err(), Some(ErrorCode::UserDoesNotExist));
}

#[test]
fn scenario_remove_after_settling() {
    let mut g = group_abc();
    g.change_balance(key(B), 25).unwrap();
    assert_eq!(remove_user(&mut g, &signer(A), key(B)), Err(ErrorCode::UserBalanceNonZero));
    assert_eq!(balance(&g, B), Some(25));
    g.change_balance(key(B), -25).unwrap();
    assert_eq!(remove_user(&mut g, &signer(A), key(B)), Ok(()));
    assert_eq!(balance(&g, B), None);
}

#[test]
fn remove_user_authorization() {
    let mut g = group_abc();
    assert_eq!(remove_user(&mut g, &signer(C), key(B)), Err(ErrorCode::UnauthorizedRemove));
    assert_eq!(remove_user(&mut g, &signer(B), key(A)), Err(ErrorCode::UnauthorizedRemove));
    assert_eq!(remove_user(&mut g, &signer(A), key(A)), Err(ErrorCode::CannotRemoveAdmin));
    assert_eq!(remove_user(&mut g, &signer(B), key(B)), Ok(()));
    assert_eq!(g.balances.len(), 2);
}

#[test]
fn scenario_transfer_admin_after_approval() {
    let mut g = create(good_escrow(0)).unwrap();
    g.change_balance(key(A), 42).unwrap();
    add_user(&mut g, &signer(A), key(C)).unwrap();
    add_user(&mut g, &signer(A), key(B)).unwrap();
    assert_eq!(transfer_admin(&mut g, &signer(A), key(B)), Err(ErrorCode::UserNotApproved));
    assert_eq!(g.get_admin(), Some(key(A)));
    approve_user(&mut g, &signer(B)).unwrap();
    assert_eq!(transfer_admin(&mut g, &signer(A), key(B)), Ok(()));
    assert_eq!(g.get_admin(), Some(key(B)));
    assert!(g.balances[2].user == key(A));
    assert_eq!(g.balances[2].balance, 42);
    assert!(g.balances[1].user == key(C));
}

#[test]
fn transfer_admin_only_by_admin() {
    let mut g = group_abc();
    assert_eq!(transfer_admin(&mut g, &signer(B), key(C)), Err(ErrorCode::UnauthorizedTransfer));
    assert_eq!(transfer_admin(&mut g, &signer(A), key(9)), Err(ErrorCode::UserDoesNotExist));
    assert_eq!(transfer_admin(&mut g, &signer(A), key(A)), Err(ErrorCode::AlreadyAdmin));
}
