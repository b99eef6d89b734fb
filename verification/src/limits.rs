//! The entries for callers who cannot rule out that a number or a storage key
//! grows too large: they test for it first.
use crate::contract::{answered, execute, execute_fits, handled, query, query_fits};
use crate::error::WrapperError;
use crate::governance::{
    add_token_fits, addable_refusal, parse_amount, removable_refusal, remove_token_fits,
};
use crate::msg::{Cw20ReceiveMsg, Env, ExecuteMsg, Expiration, MessageInfo, QueryMsg, QueryResponse};
use crate::state::{
    addr_validate, as_ref, has_token, ledger, ledger_seen, load_config, load_supply, Deps,
    DepsMut, Ledger,
};
use crate::text::DECIMAL_ONE;
use crate::token::{fits_in_key, load_allowance, load_balance, load_token_info};
use crate::utils::{
    is_valid_address, is_valid_unwrap_amount, is_valid_wrap_amount, multiply_ratio,
};
use crate::wrapping::{
    find_native, minted_for, native_to_wrap, unwrap_cw20_fits, unwrap_native_fits, wrap_cw20_fits,
    wrap_native_fits,
};
use vstd::prelude::*;

verus! {

fn is_address(deps: &Deps<'_>, text: &str) -> (b: bool)
    ensures
        b == ledger_seen(*deps).addresses.contains(text@),
{
    match addr_validate(deps, text) {
        Ok(_) => true,
        Err(_) => false,
    }
}

fn key_fits(owner: &str) -> (b: bool)
    ensures
        b == fits_in_key(owner@),
{
    owner.as_bytes().len() <= 0xFFFF
}

/// The balance of an account, if it can be read.
fn balance(deps: &Deps<'_>, who: &str) -> (res: Option<u128>)
    ensures
        match res {
            Some(v) => ledger_seen(*deps).token.readable(who@) && v == ledger_seen(
                *deps,
            ).token.held(who@),
            None => !ledger_seen(*deps).token.readable(who@),
        },
{
    match load_balance(deps, who) {
        Ok(Some(v)) => Some(v),
        Ok(None) => Some(0),
        Err(_) => None,
    }
}

fn fits(a: u128, b: u128) -> (r: bool)
    ensures
        r == (a + b <= u128::MAX),
{
    a <= u128::MAX - b
}

fn check_mint(deps: &Deps<'_>, by: &String, to: &str, amount: u128) -> (b: bool)
    ensures
        b == ledger_seen(*deps).mint_fits(by@, to@, amount),
{
    let info = match load_token_info(deps) {
        Ok(info) => info,
        Err(_) => return true,
    };
    let mint = match info.mint {
        Some(mint) => mint,
        None => return true,
    };
    if amount == 0 || mint.minter != *by {
        return true;
    }
    if !fits(info.total_supply, amount) {
        return false;
    }
    if let Some(cap) = mint.cap {
        if info.total_supply + amount > cap {
            return true;
        }
    }
    if !is_address(deps, to) {
        return true;
    }
    match balance(deps, to) {
        Some(held) => fits(held, amount),
        None => true,
    }
}

fn check_wrap(deps: &Deps<'_>, env: &Env, to: &str, amount: u128, fee_percentage: u128) -> (b: bool)
    requires
        ledger_seen(*deps).config is Holds,
        fee_percentage == ledger_seen(*deps).settings().fee_percentage,
    ensures
        b == ledger_seen(*deps).wrap_fits(*env, to@, amount),
{
    match multiply_ratio(amount, fee_percentage, DECIMAL_ONE) {
        Some(fee) => {
            if fee > amount {
                return false;
            }
            assert(minted_for(ledger_seen(*deps).settings(), amount) == amount - fee);
            check_mint(deps, &env.contract, to, amount - fee)
        },
        None => false,
    }
}

fn check_wrap_native(deps: &Deps<'_>, env: &Env, info: &MessageInfo) -> (b: bool)
    ensures
        b == wrap_native_fits(ledger_seen(*deps), *env, *info),
{
    let config = match load_config(deps) {
        Ok(config) => config,
        Err(_) => return true,
    };
    if !config.is_native_allowed {
        return true;
    }
    match find_native(&info.funds, &config.native_token_denom) {
        Some(amount) => {
            if amount == 0 || !is_valid_wrap_amount(deps, amount) {
                return true;
            }
            assert(native_to_wrap(ledger_seen(*deps), *info) is Ok);
            check_wrap(deps, env, info.sender.as_str(), amount, config.fee_percentage)
        },
        None => true,
    }
}

fn check_wrap_cw20(deps: &Deps<'_>, env: &Env, info: &MessageInfo, m: &Cw20ReceiveMsg) -> (b: bool)
    ensures
        b == wrap_cw20_fits(ledger_seen(*deps), *env, *info, *m),
{
    if !is_valid_address(deps, info.sender.as_str()) {
        return true;
    }
    if m.amount == 0 || !is_valid_wrap_amount(deps, m.amount) {
        return true;
    }
    let config = match load_config(deps) {
        Ok(config) => config,
        Err(_) => return true,
    };
    match &m.msg {
        Ok(_) => check_wrap(deps, env, m.sender.as_str(), m.amount, config.fee_percentage),
        Err(_) => match multiply_ratio(m.amount, config.fee_percentage, DECIMAL_ONE) {
            Some(fee) => fee <= m.amount,
            None => false,
        },
    }
}

/// Whether the issued amount covers `amount`, where it can be read.
fn check_issued(deps: &Deps<'_>, amount: u128) -> (b: bool)
    ensures
        b == (ledger_seen(*deps).issued is Holds ==> amount <= ledger_seen(*deps).issued_amount()),
{
    match load_supply(deps) {
        Ok(supply) => amount <= supply.issued,
        Err(_) => true,
    }
}

fn check_unwrap_native(deps: &Deps<'_>, info: &MessageInfo, amount: u128) -> (b: bool)
    ensures
        b == unwrap_native_fits(ledger_seen(*deps), *info, amount),
{
    let config = match load_config(deps) {
        Ok(config) => config,
        Err(_) => return true,
    };
    !config.is_native_allowed || !is_valid_unwrap_amount(deps, info, amount) || check_issued(
        deps,
        amount,
    )
}

fn check_unwrap_cw20(deps: &Deps<'_>, info: &MessageInfo, token: &str, amount: u128) -> (b: bool)
    ensures
        b == unwrap_cw20_fits(ledger_seen(*deps), *info, token@, amount),
{
    !is_valid_address(deps, token) || !is_valid_unwrap_amount(deps, info, amount) || check_issued(
        deps,
        amount,
    )
}

/// Whether there is a nonce after the last, where the sender governs the contract.
fn check_nonce(deps: &Deps<'_>, info: &MessageInfo) -> (b: bool)
    ensures
        b == (ledger_seen(*deps).governer_refusal(*info) is None ==> ledger_seen(
            *deps,
        ).settings().proposal_nonce < u64::MAX),
{
    let config = match load_config(deps) {
        Ok(config) => config,
        Err(_) => return true,
    };
    !is_address(deps, info.sender.as_str()) || config.governer != info.sender
        || config.proposal_nonce < u64::MAX
}

fn check_add_token(deps: &Deps<'_>, info: &MessageInfo, token: &str) -> (b: bool)
    ensures
        b == add_token_fits(ledger_seen(*deps), *info, token@),
{
    assert(addable_refusal(ledger_seen(*deps), token@) is None <==> {
        &&& ledger_seen(*deps).addresses.contains(token@)
        &&& !ledger_seen(*deps).tokens.contains_key(token@)
    });
    !is_address(deps, token) || has_token(deps, token) || check_nonce(deps, info)
}

fn check_remove_token(deps: &Deps<'_>, info: &MessageInfo, token: &str) -> (b: bool)
    ensures
        b == remove_token_fits(ledger_seen(*deps), *info, token@),
{
    assert(removable_refusal(ledger_seen(*deps), token@) is None <==> {
        &&& ledger_seen(*deps).addresses.contains(token@)
        &&& ledger_seen(*deps).is_listed(token@)
    });
    !is_address(deps, token) || !is_valid_address(deps, token) || check_nonce(deps, info)
}

/// Whether the receiving account can hold what it gets, where the amount can be
/// moved at all.
fn check_move(deps: &Deps<'_>, from: &String, to: &String, amount: u128) -> (b: bool)
    ensures
        b == (ledger_seen(*deps).token.move_fault(from@, to@, amount) is None ==> ledger_seen(
            *deps,
        ).token.move_fits(from@, to@, amount)),
{
    match (balance(deps, from.as_str()), balance(deps, to.as_str())) {
        (Some(available), Some(held)) => amount > available || *from == *to || fits(held, amount),
        _ => true,
    }
}

fn check_transfer(deps: &Deps<'_>, from: &String, to: &String, amount: u128) -> (b: bool)
    ensures
        b == ledger_seen(*deps).transfer_fits(from@, to@, amount),
{
    amount == 0 || !is_address(deps, to.as_str()) || check_move(deps, from, to, amount)
}

fn is_expired(expires: Expiration, env: &Env) -> (b: bool)
    ensures
        b == expires.is_expired(*env),
{
    match expires {
        Expiration::AtHeight(height) => env.height >= height,
        Expiration::AtTime(time) => env.time >= time,
        Expiration::Never => false,
    }
}

fn check_transfer_from(
    deps: &Deps<'_>,
    env: &Env,
    owner: &String,
    spender: &String,
    to: &String,
    amount: u128,
) -> (b: bool)
    ensures
        b == ledger_seen(*deps).transfer_from_fits(owner@, spender@, to@, *env, amount),
{
    if !is_address(deps, owner.as_str()) || !is_address(deps, to.as_str()) {
        return true;
    }
    if !key_fits(owner.as_str()) {
        return false;
    }
    match load_allowance(deps, owner.as_str(), spender.as_str()) {
        Ok(Some(a)) => is_expired(a.expires, env) || amount > a.allowance || check_move(
            deps,
            owner,
            to,
            amount,
        ),
        _ => true,
    }
}

fn check_decrease(deps: &Deps<'_>, owner: &String, spender: &String) -> (b: bool)
    ensures
        b == ledger_seen(*deps).decrease_fits(owner@, spender@),
{
    !is_address(deps, spender.as_str()) || *spender == *owner || key_fits(owner.as_str())
}

fn check_increase(deps: &Deps<'_>, owner: &String, spender: &String, amount: u128) -> (b: bool)
    ensures
        b == ledger_seen(*deps).increase_fits(owner@, spender@, amount),
{
    if !is_address(deps, spender.as_str()) || *spender == *owner {
        return true;
    }
    if !key_fits(owner.as_str()) {
        return false;
    }
    match load_allowance(deps, owner.as_str(), spender.as_str()) {
        Ok(Some(a)) => fits(a.allowance, amount),
        _ => true,
    }
}

/// Whether every sum, difference and storage key that a message gets to fits.
pub fn check_execute(deps: &Deps<'_>, env: &Env, info: &MessageInfo, msg: &ExecuteMsg) -> (b: bool)
    ensures
        b == execute_fits(ledger_seen(*deps), *env, *info, *msg),
{
    let who = &info.sender;
    match msg {
        ExecuteMsg::Wrap {  } => check_wrap_native(deps, env, info),
        ExecuteMsg::Unwrap { token, amount } => match token {
            Some(token) => check_unwrap_cw20(deps, info, token.as_str(), *amount),
            None => check_unwrap_native(deps, info, *amount),
        },
        ExecuteMsg::Receive(m) => check_wrap_cw20(deps, env, info, m),
        ExecuteMsg::AddCw20TokenAddr { token, .. } => check_add_token(deps, info, token.as_str()),
        ExecuteMsg::RemoveCw20TokenAddr { token, .. } => check_remove_token(
            deps,
            info,
            token.as_str(),
        ),
        ExecuteMsg::Transfer { recipient, amount } => check_transfer(deps, who, recipient, *amount),
        ExecuteMsg::Send { contract, amount, .. } => check_transfer(deps, who, contract, *amount),
        ExecuteMsg::IncreaseAllowance { spender, amount, .. } => check_increase(
            deps,
            who,
            spender,
            *amount,
        ),
        ExecuteMsg::DecreaseAllowance { spender, .. } => check_decrease(deps, who, spender),
        ExecuteMsg::TransferFrom { owner, recipient, amount } => check_transfer_from(
            deps,
            env,
            owner,
            who,
            recipient,
            *amount,
        ),
        ExecuteMsg::BurnFrom { owner, .. } => !is_address(deps, owner.as_str()) || key_fits(
            owner.as_str(),
        ),
        ExecuteMsg::SendFrom { owner, contract, amount, .. } => check_transfer_from(
            deps,
            env,
            owner,
            who,
            contract,
            *amount,
        ),
        _ => true,
    }
}

/// The promise of `checked_execute`: a message is handled exactly where everything
/// fits, and else nothing is written.
pub open spec fn attempted(
    before: Ledger,
    after: Ledger,
    env: Env,
    info: MessageInfo,
    msg: ExecuteMsg,
    res: Option<Result<cosmwasm_std::Response, WrapperError>>,
) -> bool {
    &&& res is Some <==> execute_fits(before, env, info, msg)
    &&& match res {
        Some(r) => handled(before, after, env, info, msg, r),
        None => after == before,
    }
}

/// Handles a message, unless a number or a storage key would grow too large.
pub fn checked_execute(
    deps: &mut DepsMut<'_>,
    env: Env,
    info: MessageInfo,
    msg: ExecuteMsg,
) -> (res: Option<Result<cosmwasm_std::Response, WrapperError>>)
    ensures
        attempted(ledger(*old(deps)), ledger(*final(deps)), env, info, msg, res),
{
    if check_execute(&as_ref(deps), &env, &info, &msg) {
        Some(execute(deps, env, info, msg))
    } else {
        None
    }
}

/// Whether every number and storage key that a query gets to fits.
pub fn check_query(deps: &Deps<'_>, msg: &QueryMsg) -> (b: bool)
    ensures
        b == query_fits(ledger_seen(*deps), *msg),
{
    match msg {
        QueryMsg::FeeFromAmount { amount_to_wrap } => match (
            load_config(deps),
            parse_amount(amount_to_wrap.as_str()),
        ) {
            (Ok(config), Ok(amount)) => match multiply_ratio(
                amount,
                config.fee_percentage,
                DECIMAL_ONE,
            ) {
                Some(_) => true,
                None => false,
            },
            _ => true,
        },
        QueryMsg::GetAmountToWrap { target_amount } => match (
            load_config(deps),
            parse_amount(target_amount.as_str()),
        ) {
            (Ok(config), Ok(target)) => {
                if config.fee_percentage >= DECIMAL_ONE {
                    return false;
                }
                match multiply_ratio(target, DECIMAL_ONE, DECIMAL_ONE - config.fee_percentage) {
                    Some(_) => true,
                    None => false,
                }
            },
            _ => true,
        },
        QueryMsg::Allowance { owner, spender } => !is_address(deps, owner.as_str()) || !is_address(
            deps,
            spender.as_str(),
        ) || key_fits(owner.as_str()),
        _ => true,
    }
}

/// The promise of `checked_query`: a query is answered exactly where everything
/// fits.
pub open spec fn query_attempted(
    l: Ledger,
    msg: QueryMsg,
    res: Option<Result<QueryResponse, WrapperError>>,
) -> bool {
    &&& res is Some <==> query_fits(l, msg)
    &&& res matches Some(r) ==> answered(l, msg, r)
}

/// Answers a query, unless a number or a storage key would grow too large.
pub fn checked_query(deps: Deps<'_>, env: Env, msg: QueryMsg) -> (res: Option<
    Result<QueryResponse, WrapperError>,
>)
    ensures
        query_attempted(ledger_seen(deps), msg, res),
{
    if check_query(&deps, &msg) {
        Some(query(deps, env, msg))
    } else {
        None
    }
}

} // verus!
