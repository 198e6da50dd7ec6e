//! Depositing collateral.
use vstd::prelude::*;

use crate::errors::ErrorCode;
use crate::key::Key;
use crate::structs::{Deposit, Lookup, TokenDeposited, UserData};

verus! {

/// A deposit ready to be committed: the records as they must be written once
/// `into_vault` tokens have moved from the user's holding into the vault.
#[derive(Clone, Copy, Debug)]
pub struct DepositPlan {
    pub deposit: Deposit,
    pub user_data: UserData,
    pub into_vault: u64,
    pub event: TokenDeposited,
}

/// The collateral record that a deposit by `user` works on.
pub open spec fn deposit_lookup(slot: Option<Deposit>, user: Key, token_mint: Key, config_account: Key) -> Lookup<
    Deposit,
> {
    match slot {
        None => Lookup::Created(
            Deposit { user, token_mint, token_amt: 0, config_account },
        ),
        Some(d) => if d.user == user {
            Lookup::Existing(d)
        } else {
            Lookup::Foreign
        },
    }
}

/// The borrowing position that a deposit by `user` works on.
pub open spec fn user_data_lookup(slot: Option<UserData>, user: Key, token_mint: Key) -> Lookup<
    UserData,
> {
    match slot {
        None => Lookup::Created(
            UserData {
                user,
                borrowed_amount: 0,
                primary_token: token_mint,
                hf: u64::MAX,
                token_balance: 0,
            },
        ),
        Some(u) => if u.user == user {
            Lookup::Existing(u)
        } else {
            Lookup::Foreign
        },
    }
}

/// What depositing `amount` does: both balances grow by `amount`, and exactly
/// `amount` moves into the vault.
pub open spec fn deposit_outcome(
    deposit: Option<Deposit>,
    user_data: Option<UserData>,
    user: Key,
    token_mint: Key,
    config_account: Key,
    amount: u64,
) -> Result<DepositPlan, ErrorCode> {
    let d = deposit_lookup(deposit, user, token_mint, config_account);
    let u = user_data_lookup(user_data, user, token_mint);
    if d is Foreign || u is Foreign {
        Err(ErrorCode::UnauthorizedUser)
    } else if amount == 0 {
        Err(ErrorCode::AmountLessThanZero)
    } else if d.record().token_amt + amount > u64::MAX || u.record().token_balance + amount
        > u64::MAX {
        Err(ErrorCode::Overflow)
    } else {
        Ok(
            DepositPlan {
                deposit: Deposit { token_amt: (d.record().token_amt + amount) as u64, ..d.record() },
                user_data: UserData {
                    token_balance: (u.record().token_balance + amount) as u64,
                    ..u.record()
                },
                into_vault: amount,
                event: TokenDeposited { user, token: token_mint, amount },
            },
        )
    }
}

/// A collateral record freshly stamped with its owner.
pub fn save_deposit(user: Key, token_mint: Key, config_account: Key, token_amt: u64) -> (r: Deposit)
    ensures
        r == (Deposit { user, token_mint, token_amt, config_account }),
{
    Deposit { user, token_mint, token_amt, config_account }
}

/// Finds the caller's collateral record, or creates it empty.
pub fn find_or_create_deposit(
    slot: &Option<Deposit>,
    user: Key,
    token_mint: Key,
    config_account: Key,
) -> (r: Lookup<Deposit>)
    ensures
        r == deposit_lookup(*slot, user, token_mint, config_account),
{
    match slot {
        None => Lookup::Created(save_deposit(user, token_mint, config_account, 0)),
        Some(d) => if d.user == user {
            Lookup::Existing(*d)
        } else {
            Lookup::Foreign
        },
    }
}

/// Finds the caller's borrowing position, or creates it without debt.
pub fn find_or_create_user_data(slot: &Option<UserData>, user: Key, token_mint: Key) -> (r: Lookup<
    UserData,
>)
    ensures
        r == user_data_lookup(*slot, user, token_mint),
{
    match slot {
        None => Lookup::Created(
            UserData {
                user,
                borrowed_amount: 0,
                primary_token: token_mint,
                hf: u64::MAX,
                token_balance: 0,
            },
        ),
        Some(u) => if u.user == user {
            Lookup::Existing(*u)
        } else {
            Lookup::Foreign
        },
    }
}

/// Stages a deposit of `amount` of collateral by `user`. `deposit` and
/// `user_data` are the user's records for this asset, `None` where none exists
/// yet.
pub fn deposit_token(
    deposit: &Option<Deposit>,
    user_data: &Option<UserData>,
    user: Key,
    token_mint: Key,
    config_account: Key,
    amount: u64,
) -> (r: Result<DepositPlan, ErrorCode>)
    ensures
        r == deposit_outcome(*deposit, *user_data, user, token_mint, config_account, amount),
{
    let d = match find_or_create_deposit(deposit, user, token_mint, config_account) {
        Lookup::Existing(d) => d,
        Lookup::Created(d) => d,
        Lookup::Foreign => {
            return Err(ErrorCode::UnauthorizedUser);
        },
    };
    let u = match find_or_create_user_data(user_data, user, token_mint) {
        Lookup::Existing(u) => u,
        Lookup::Created(u) => u,
        Lookup::Foreign => {
            return Err(ErrorCode::UnauthorizedUser);
        },
    };
    if amount == 0 {
        return Err(ErrorCode::AmountLessThanZero);
    }
    let token_amt = match d.token_amt.checked_add(amount) {
        Some(v) => v,
        None => {
            return Err(ErrorCode::Overflow);
        },
    };
    let token_balance = match u.token_balance.checked_add(amount) {
        Some(v) => v,
        None => {
            return Err(ErrorCode::Overflow);
        },
    };
    Ok(
        DepositPlan {
            deposit: Deposit { token_amt, ..d },
            user_data: UserData { token_balance, ..u },
            into_vault: amount,
            event: TokenDeposited { user, token: token_mint, amount },
        },
    )
}

/// A deposit that goes through adds exactly `amount` to the collateral on
/// record (counting a record that did not exist as empty) and to the balance
/// the health factor is computed from, and moves exactly `amount` into the
/// vault, in one transfer.
pub proof fn lemma_deposit_adds_amount(
    deposit: Option<Deposit>,
    user_data: Option<UserData>,
    user: Key,
    token_mint: Key,
    config_account: Key,
    amount: u64,
)
    requires
        deposit_outcome(deposit, user_data, user, token_mint, config_account, amount) is Ok,
    ensures
        ({
            let plan = deposit_outcome(deposit, user_data, user, token_mint, config_account, amount)->Ok_0;
            let before = match deposit {
                Some(d) => d.token_amt as int,
                None => 0,
            };
            let balance_before = match user_data {
                Some(u) => u.token_balance as int,
                None => 0,
            };
            &&& plan.deposit.token_amt == before + amount
            &&& plan.user_data.token_balance == balance_before + amount
            &&& plan.deposit.user == user
            &&& plan.into_vault == amount
            &&& amount > 0
        }),
{
}

/// A deposit of a positive amount by the owner of the records (or into records
/// that do not exist yet) goes through whenever the new balances fit.
pub proof fn lemma_deposit_goes_through(
    deposit: Option<Deposit>,
    user_data: Option<UserData>,
    user: Key,
    token_mint: Key,
    config_account: Key,
    amount: u64,
)
    requires
        amount > 0,
        deposit matches Some(d) ==> d.user == user && d.token_amt + amount <= u64::MAX,
        user_data matches Some(u) ==> u.user == user && u.token_balance + amount <= u64::MAX,
    ensures
        deposit_outcome(deposit, user_data, user, token_mint, config_account, amount) is Ok,
{
}

} // verus!
