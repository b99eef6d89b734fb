//! The entries of the contract.
use crate::error::{by_std, by_token, first, token_error, token_fault, Refusal, WrapperError};
use crate::governance::{
    add_token_addr, add_token_fits, add_token_refusal, amount_of, method_reply, parse_amount,
    percent, percentage, proposed, remove_token_addr, remove_token_fits, remove_token_refusal,
    set_governer, set_governer_refusal, set_native_allowed, set_native_allowed_refusal, token_added,
    update_fee_perc, update_fee_perc_refusal, update_fee_recipient, update_fee_recipient_refusal,
    update_wrapping_limit, update_wrapping_limit_refusal,
};
use crate::msg::{
    ConfigResponse, Cw20HookMsg, Env, ExecuteMsg, FeeFromAmountResponse, GetAmountToWrapResponse,
    MessageInfo, QueryMsg, QueryResponse,
};
use crate::reply::{saying, Outgoing, ReplyView};
use crate::state::{
    ledger, ledger_seen, load_config, AllowanceView, ConfigView, Deps, DepsMut, Ledger, Slot,
};
use crate::text::{
    decimal_text, decimal_to_string, digits, flag_text, flag_to_string, number_to_string,
    DECIMAL_ONE,
};
use crate::token::{
    execute_burn, execute_burn_from, execute_decrease_allowance, execute_increase_allowance,
    execute_send, execute_send_from, execute_transfer, execute_transfer_from, fits_in_key, lowered,
    query_allowance, query_balance, query_token_info, raised, receive_payload,
};
use crate::utils::{fee_of, get_amount_to_wrap, get_fee_from_amount, gross_of};
use crate::wrapping::{
    answers, native_to_wrap, unwrap_cw20, unwrap_cw20_fits, unwrap_cw20_refusal,
    unwrap_cw20_reply,
    unwrap_native, unwrap_native_fits, unwrap_native_refusal, unwrap_native_reply, wrap_cw20,
    wrap_cw20_fits, wrap_cw20_refusal, wrap_cw20_reply, wrap_native, wrap_native_fits,
    wrap_native_refusal, wrap_native_reply,
};
use vstd::prelude::*;

pub use crate::governance::instantiate;

verus! {

/// Why a message is refused, if it is.
pub open spec fn refusal(l: Ledger, env: Env, info: MessageInfo, msg: ExecuteMsg) -> Option<
    Refusal,
> {
    let who = info.sender@;
    match msg {
        ExecuteMsg::Wrap {  } => wrap_native_refusal(l, env, info),
        ExecuteMsg::Unwrap { token, amount } => match token {
            Some(token) => unwrap_cw20_refusal(l, info, token@, amount),
            None => unwrap_native_refusal(l, info, amount),
        },
        ExecuteMsg::Receive(m) => wrap_cw20_refusal(l, env, info, m),
        ExecuteMsg::SetGoverner { new_governer } => set_governer_refusal(l, info, new_governer@),
        ExecuteMsg::SetNativeAllowed { is_native_allowed } => set_native_allowed_refusal(l, info),
        ExecuteMsg::UpdateLimit { new_limit } => update_wrapping_limit_refusal(l, info, new_limit@),
        ExecuteMsg::SetFee { new_fee_perc } => update_fee_perc_refusal(l, info, new_fee_perc@),
        ExecuteMsg::SetFeeRecipient { new_recipient } => update_fee_recipient_refusal(
            l,
            info,
            new_recipient@,
        ),
        ExecuteMsg::AddCw20TokenAddr { token, nonce } => add_token_refusal(l, info, token@, nonce),
        ExecuteMsg::RemoveCw20TokenAddr { token, nonce } => remove_token_refusal(
            l,
            info,
            token@,
            nonce,
        ),
        ExecuteMsg::Transfer { recipient, amount } => by_token(
            l.transfer_fault(who, recipient@, amount),
        ),
        ExecuteMsg::Burn { amount } => by_token(l.burn_fault(who, amount)),
        ExecuteMsg::Send { contract, amount, msg } => by_token(
            l.transfer_fault(who, contract@, amount),
        ),
        ExecuteMsg::IncreaseAllowance { spender, amount, expires } => by_token(
            l.increase_fault(who, spender@),
        ),
        ExecuteMsg::DecreaseAllowance { spender, amount, expires } => by_token(
            l.decrease_fault(who, spender@),
        ),
        ExecuteMsg::TransferFrom { owner, recipient, amount } => by_token(
            l.transfer_from_fault(owner@, who, recipient@, env, amount),
        ),
        ExecuteMsg::BurnFrom { owner, amount } => by_token(
            l.burn_from_fault(owner@, who, env, amount),
        ),
        ExecuteMsg::SendFrom { owner, contract, amount, msg } => by_token(
            l.transfer_from_fault(owner@, who, contract@, env, amount),
        ),
    }
}

/// The ledger once a message was carried out.
pub open spec fn effect(l: Ledger, env: Env, info: MessageInfo, msg: ExecuteMsg) -> Ledger {
    let who = info.sender@;
    let c = l.settings();
    match msg {
        ExecuteMsg::Wrap {  } => l.wrapped(who, native_to_wrap(l, info)->Ok_0),
        ExecuteMsg::Unwrap { token, amount } => l.unwrapped(who, amount),
        ExecuteMsg::Receive(m) => l.wrapped(m.sender@, m.amount),
        ExecuteMsg::SetGoverner { new_governer } => l.with_config(
            ConfigView { governer: new_governer@, ..c },
        ),
        ExecuteMsg::SetNativeAllowed { is_native_allowed } => l.with_config(
            ConfigView { is_native_allowed: is_native_allowed != 0, ..c },
        ),
        ExecuteMsg::UpdateLimit { new_limit } => l.with_config(
            ConfigView { wrapping_limit: amount_of(new_limit@)->Ok_0, ..c },
        ),
        ExecuteMsg::SetFee { new_fee_perc } => l.with_config(
            ConfigView {
                fee_percentage: percent(percentage(new_fee_perc@)->Ok_0 as nat) as u128,
                ..c
            },
        ),
        ExecuteMsg::SetFeeRecipient { new_recipient } => l.with_config(
            ConfigView { fee_recipient: new_recipient@, ..c },
        ),
        ExecuteMsg::AddCw20TokenAddr { token, nonce } => token_added(l, token@, nonce),
        ExecuteMsg::RemoveCw20TokenAddr { token, nonce } => proposed(l, token@, false, nonce),
        ExecuteMsg::Transfer { recipient, amount } => l.with_token(
            l.token.moved(who, recipient@, amount),
        ),
        ExecuteMsg::Burn { amount } => l.with_token(l.token.destroyed(who, amount)),
        ExecuteMsg::Send { contract, amount, msg } => l.with_token(
            l.token.moved(who, contract@, amount),
        ),
        ExecuteMsg::IncreaseAllowance { spender, amount, expires } => l.with_token(
            l.token.with_allowance(
                who,
                spender@,
                raised(l.token.allowed(who, spender@), amount, expires),
            ),
        ),
        ExecuteMsg::DecreaseAllowance { spender, amount, expires } => l.with_token(
            lowered(l.token, who, spender@, amount, expires),
        ),
        ExecuteMsg::TransferFrom { owner, recipient, amount } => l.with_token(
            l.token.spent(owner@, who, amount).moved(owner@, recipient@, amount),
        ),
        ExecuteMsg::BurnFrom { owner, amount } => l.with_token(
            l.token.spent(owner@, who, amount).destroyed(owner@, amount),
        ),
        ExecuteMsg::SendFrom { owner, contract, amount, msg } => l.with_token(
            l.token.spent(owner@, who, amount).moved(owner@, contract@, amount),
        ),
    }
}

/// A reply of the token that sends nothing out.
pub open spec fn plain(attributes: Seq<(Seq<char>, Seq<char>)>) -> ReplyView {
    saying(Seq::empty(), attributes)
}

/// The reply to a message that was carried out.
pub open spec fn reply(l: Ledger, info: MessageInfo, msg: ExecuteMsg) -> ReplyView {
    let who = info.sender@;
    match msg {
        ExecuteMsg::Wrap {  } => wrap_native_reply(l, info),
        ExecuteMsg::Unwrap { token, amount } => match token {
            Some(token) => unwrap_cw20_reply(info, token@, amount),
            None => unwrap_native_reply(l, info, amount),
        },
        ExecuteMsg::Receive(m) => wrap_cw20_reply(l, info, m),
        ExecuteMsg::SetGoverner { new_governer } => method_reply(
            "set_governer"@,
            "new_governer"@,
            new_governer@,
        ),
        ExecuteMsg::SetNativeAllowed { is_native_allowed } => method_reply(
            "set_native_allowed"@,
            "is_native_allowed"@,
            flag_text(is_native_allowed != 0),
        ),
        ExecuteMsg::UpdateLimit { new_limit } => method_reply(
            "set_wrapping_limit"@,
            "new_limit"@,
            digits(amount_of(new_limit@)->Ok_0 as nat),
        ),
        ExecuteMsg::SetFee { new_fee_perc } => method_reply(
            "set_fee"@,
            "new_fee_perc"@,
            decimal_text(percent(percentage(new_fee_perc@)->Ok_0 as nat)),
        ),
        ExecuteMsg::SetFeeRecipient { new_recipient } => method_reply(
            "set_fee_recipient"@,
            "new_recipient"@,
            new_recipient@,
        ),
        ExecuteMsg::AddCw20TokenAddr { token, nonce } => method_reply(
            "add_token"@,
            "token"@,
            token@,
        ),
        ExecuteMsg::RemoveCw20TokenAddr { token, nonce } => method_reply(
            "remove_token"@,
            "token"@,
            token@,
        ),
        ExecuteMsg::Transfer { recipient, amount } => plain(
            seq![
                ("action"@, "transfer"@),
                ("from"@, who),
                ("to"@, recipient@),
                ("amount"@, digits(amount as nat)),
            ],
        ),
        ExecuteMsg::Burn { amount } => plain(
            seq![("action"@, "burn"@), ("from"@, who), ("amount"@, digits(amount as nat))],
        ),
        ExecuteMsg::Send { contract, amount, msg } => saying(
            seq![
                Outgoing::WasmExecute {
                    contract: contract@,
                    msg: receive_payload(who, amount, msg@),
                },
            ],
            seq![
                ("action"@, "send"@),
                ("from"@, who),
                ("to"@, contract@),
                ("amount"@, digits(amount as nat)),
            ],
        ),
        ExecuteMsg::IncreaseAllowance { spender, amount, expires } => plain(
            seq![
                ("action"@, "increase_allowance"@),
                ("owner"@, who),
                ("spender"@, spender@),
                ("amount"@, digits(amount as nat)),
            ],
        ),
        ExecuteMsg::DecreaseAllowance { spender, amount, expires } => plain(
            seq![
                ("action"@, "decrease_allowance"@),
                ("owner"@, who),
                ("spender"@, spender@),
                ("amount"@, digits(amount as nat)),
            ],
        ),
        ExecuteMsg::TransferFrom { owner, recipient, amount } => plain(
            seq![
                ("action"@, "transfer_from"@),
                ("from"@, owner@),
                ("to"@, recipient@),
                ("by"@, who),
                ("amount"@, digits(amount as nat)),
            ],
        ),
        ExecuteMsg::BurnFrom { owner, amount } => plain(
            seq![
                ("action"@, "burn_from"@),
                ("from"@, owner@),
                ("by"@, who),
                ("amount"@, digits(amount as nat)),
            ],
        ),
        ExecuteMsg::SendFrom { owner, contract, amount, msg } => saying(
            seq![
                Outgoing::WasmExecute {
                    contract: contract@,
                    msg: receive_payload(who, amount, msg@),
                },
            ],
            seq![
                ("action"@, "send_from"@),
                ("from"@, owner@),
                ("to"@, contract@),
                ("by"@, who),
                ("amount"@, digits(amount as nat)),
            ],
        ),
    }
}

/// Whether every sum, difference and storage key that a message gets to fits:
/// on a message that breaks this the token or the contract would panic.
pub open spec fn execute_fits(l: Ledger, env: Env, info: MessageInfo, msg: ExecuteMsg) -> bool {
    let who = info.sender@;
    match msg {
        ExecuteMsg::Wrap {  } => wrap_native_fits(l, env, info),
        ExecuteMsg::Unwrap { token, amount } => match token {
            Some(token) => unwrap_cw20_fits(l, info, token@, amount),
            None => unwrap_native_fits(l, info, amount),
        },
        ExecuteMsg::Receive(m) => wrap_cw20_fits(l, env, info, m),
        ExecuteMsg::AddCw20TokenAddr { token, nonce } => add_token_fits(l, info, token@),
        ExecuteMsg::RemoveCw20TokenAddr { token, nonce } => remove_token_fits(l, info, token@),
        ExecuteMsg::Transfer { recipient, amount } => l.transfer_fits(who, recipient@, amount),
        ExecuteMsg::Send { contract, amount, msg } => l.transfer_fits(who, contract@, amount),
        ExecuteMsg::IncreaseAllowance { spender, amount, expires } => l.increase_fits(
            who,
            spender@,
            amount,
        ),
        ExecuteMsg::DecreaseAllowance { spender, amount, expires } => l.decrease_fits(
            who,
            spender@,
        ),
        ExecuteMsg::TransferFrom { owner, recipient, amount } => l.transfer_from_fits(
            owner@,
            who,
            recipient@,
            env,
            amount,
        ),
        ExecuteMsg::BurnFrom { owner, amount } => l.addresses.contains(owner@) ==> fits_in_key(
            owner@,
        ),
        ExecuteMsg::SendFrom { owner, contract, amount, msg } => l.transfer_from_fits(
            owner@,
            who,
            contract@,
            env,
            amount,
        ),
        _ => true,
    }
}

/// The ledger once the token has refused a message: what was written before it
/// refused stays. It is for the chain to drop what a refused message has written.
pub open spec fn leavings(l: Ledger, env: Env, info: MessageInfo, msg: ExecuteMsg) -> Ledger {
    let who = info.sender@;
    match msg {
        ExecuteMsg::Wrap {  } => l.wrap_leaves(env, native_to_wrap(l, info)->Ok_0),
        ExecuteMsg::Receive(m) => l.wrap_leaves(env, m.amount),
        ExecuteMsg::Unwrap { token, amount } => l.with_token(l.burn_leaves(who, amount)),
        ExecuteMsg::Transfer { recipient, amount } => l.with_token(
            l.transfer_leaves(who, recipient@, amount),
        ),
        ExecuteMsg::Burn { amount } => l.with_token(l.burn_leaves(who, amount)),
        ExecuteMsg::Send { contract, amount, msg } => l.with_token(
            l.transfer_leaves(who, contract@, amount),
        ),
        ExecuteMsg::TransferFrom { owner, recipient, amount } => l.with_token(
            l.transfer_from_leaves(owner@, who, recipient@, env, amount),
        ),
        ExecuteMsg::BurnFrom { owner, amount } => l.with_token(
            l.burn_from_leaves(owner@, who, env, amount),
        ),
        ExecuteMsg::SendFrom { owner, contract, amount, msg } => l.with_token(
            l.transfer_from_leaves(owner@, who, contract@, env, amount),
        ),
        _ => l,
    }
}

/// The promise of `execute`. A message is refused for the reason that `refusal`
/// gives, or carried out as `effect` and `reply` say. A refused message writes
/// nothing, unless it is the token that refuses. A notice of cw20 tokens that
/// cannot be decoded is refused with the error of the decoding.
pub open spec fn handled(
    before: Ledger,
    after: Ledger,
    env: Env,
    info: MessageInfo,
    msg: ExecuteMsg,
    res: Result<cosmwasm_std::Response, WrapperError>,
) -> bool {
    &&& answers(res, refusal(before, env, info, msg), reply(before, info, msg))
    &&& after == match refusal(before, env, info, msg) {
        None => effect(before, env, info, msg),
        Some(Refusal::Token(_)) => leavings(before, env, info, msg),
        Some(_) => before,
    }
    &&& msg matches ExecuteMsg::Receive(m) ==> res matches Err(WrapperError::Std(e)) ==> m.msg
        == Err::<Cw20HookMsg, _>(e)
}

/// Hands the answer of the token on.
fn from_token(res: Result<cosmwasm_std::Response, cw20_base::ContractError>) -> (r: Result<
    cosmwasm_std::Response,
    WrapperError,
>)
    ensures
        match res {
            Ok(response) => r == Ok::<cosmwasm_std::Response, WrapperError>(response),
            Err(e) => r matches Err(f) && f@ == Refusal::Token(token_fault(e)),
        },
{
    match res {
        Ok(response) => Ok(response),
        Err(e) => Err(WrapperError::Token(token_error(e))),
    }
}

/// Handles a message.
pub fn execute(
    deps: &mut DepsMut<'_>,
    env: Env,
    info: MessageInfo,
    msg: ExecuteMsg,
) -> (res: Result<cosmwasm_std::Response, WrapperError>)
    requires
        execute_fits(ledger(*old(deps)), env, info, msg),
    ensures
        handled(ledger(*old(deps)), ledger(*final(deps)), env, info, msg, res),
{
    let who = info.sender.as_str();
    match msg {
        // Wraps native tokens on behalf of the sender
        ExecuteMsg::Wrap {  } => wrap_native(deps, env, info),
        // Unwraps native or cw20 tokens on behalf of the sender
        ExecuteMsg::Unwrap { token, amount } => match token {
            Some(token) => unwrap_cw20(deps, env, info, token, amount),
            None => unwrap_native(deps, env, info, amount),
        },
        // Wraps cw20 tokens on behalf of whoever sent them
        ExecuteMsg::Receive(m) => wrap_cw20(deps, env, info, m),
        // Governing the contract
        ExecuteMsg::SetGoverner { new_governer } => set_governer(deps, env, info, new_governer),
        ExecuteMsg::SetNativeAllowed { is_native_allowed } => set_native_allowed(
            deps,
            info,
            is_native_allowed,
        ),
        ExecuteMsg::UpdateLimit { new_limit } => update_wrapping_limit(deps, info, new_limit),
        ExecuteMsg::SetFee { new_fee_perc } => update_fee_perc(deps, info, new_fee_perc),
        ExecuteMsg::SetFeeRecipient { new_recipient } => update_fee_recipient(
            deps,
            info,
            new_recipient,
        ),
        ExecuteMsg::AddCw20TokenAddr { token, nonce } => add_token_addr(deps, info, token, nonce),
        ExecuteMsg::RemoveCw20TokenAddr { token, nonce } => remove_token_addr(
            deps,
            info,
            token,
            nonce,
        ),
        // The cw20 standard
        ExecuteMsg::Transfer { recipient, amount } => from_token(
            execute_transfer(deps, &env, who, recipient, amount),
        ),
        ExecuteMsg::Burn { amount } => from_token(execute_burn(deps, &env, who, amount)),
        ExecuteMsg::Send { contract, amount, msg } => from_token(
            execute_send(deps, &env, who, contract, amount, msg),
        ),
        ExecuteMsg::IncreaseAllowance { spender, amount, expires } => from_token(
            execute_increase_allowance(deps, &env, who, spender, amount, expires),
        ),
        ExecuteMsg::DecreaseAllowance { spender, amount, expires } => from_token(
            execute_decrease_allowance(deps, &env, who, spender, amount, expires),
        ),
        ExecuteMsg::TransferFrom { owner, recipient, amount } => from_token(
            execute_transfer_from(deps, &env, who, owner, recipient, amount),
        ),
        ExecuteMsg::BurnFrom { owner, amount } => from_token(
            execute_burn_from(deps, &env, who, owner, amount),
        ),
        ExecuteMsg::SendFrom { owner, contract, amount, msg } => from_token(
            execute_send_from(deps, &env, who, owner, contract, amount, msg),
        ),
    }
}

/// The settings as a query shows them.
pub open spec fn shows_config(r: ConfigResponse, c: ConfigView) -> bool {
    &&& r.governer@ == c.governer
    &&& r.native_token_denom@ == c.native_token_denom
    &&& r.fee_recipient@ == c.fee_recipient
    &&& r.fee_percentage@ == decimal_text(c.fee_percentage as nat)
    &&& r.is_native_allowed@ == flag_text(c.is_native_allowed)
    &&& r.wrapping_limit@ == digits(c.wrapping_limit as nat)
    &&& r.proposal_nonce@ == digits(c.proposal_nonce as nat)
}

/// Shows the settings.
pub fn query_config(deps: &Deps<'_>) -> (res: Result<ConfigResponse, WrapperError>)
    ensures
        match ledger_seen(*deps).config {
            Slot::Holds(c) => res matches Ok(r) && shows_config(r, c),
            s => res matches Err(e) && by_std(s.load_fault()) == Some(e@),
        },
{
    let config = match load_config(deps) {
        Ok(config) => config,
        Err(e) => return Err(WrapperError::Std(e)),
    };
    Ok(
        ConfigResponse {
            governer: config.governer,
            native_token_denom: config.native_token_denom,
            fee_recipient: config.fee_recipient,
            fee_percentage: decimal_to_string(config.fee_percentage),
            is_native_allowed: flag_to_string(config.is_native_allowed),
            wrapping_limit: number_to_string(config.wrapping_limit),
            proposal_nonce: number_to_string(config.proposal_nonce as u128),
        },
    )
}

/// Why an amount in a query cannot be answered.
pub open spec fn amount_query_refusal(l: Ledger, text: Seq<char>) -> Option<Refusal> {
    first(by_std(l.config.load_fault()), amount_of(text).err())
}

/// The fee of an amount that is asked about fits.
pub open spec fn fee_query_fits(l: Ledger, text: Seq<char>) -> bool {
    amount_query_refusal(l, text) is None ==> fee_of(
        amount_of(text)->Ok_0,
        l.settings().fee_percentage,
    ) <= u128::MAX
}

pub open spec fn shows_fee(r: FeeFromAmountResponse, c: ConfigView, amount: u128) -> bool {
    &&& r.amount_to_wrap@ == digits(amount as nat)
    &&& r.fee_amt@ == digits(fee_of(amount, c.fee_percentage))
}

/// Shows the fee for wrapping an amount.
pub fn query_fee_from_amount(deps: &Deps<'_>, amount_to_wrap: String) -> (res: Result<
    FeeFromAmountResponse,
    WrapperError,
>)
    requires
        fee_query_fits(ledger_seen(*deps), amount_to_wrap@),
    ensures
        match amount_query_refusal(ledger_seen(*deps), amount_to_wrap@) {
            Some(f) => res matches Err(e) && e@ == f,
            None => res matches Ok(r) && shows_fee(
                r,
                ledger_seen(*deps).settings(),
                amount_of(amount_to_wrap@)->Ok_0,
            ),
        },
{
    let config = match load_config(deps) {
        Ok(config) => config,
        Err(e) => return Err(WrapperError::Std(e)),
    };
    let amount = match parse_amount(amount_to_wrap.as_str()) {
        Ok(v) => v,
        Err(e) => return Err(e),
    };
    let fee_amt = get_fee_from_amount(amount, config.fee_percentage);
    Ok(
        FeeFromAmountResponse {
            amount_to_wrap: number_to_string(amount),
            fee_amt: number_to_string(fee_amt),
        },
    )
}

/// There is an amount that leaves the one asked about, and it fits.
pub open spec fn gross_query_fits(l: Ledger, text: Seq<char>) -> bool {
    amount_query_refusal(l, text) is None ==> {
        &&& l.settings().fee_percentage < DECIMAL_ONE
        &&& gross_of(amount_of(text)->Ok_0, l.settings().fee_percentage) <= u128::MAX
    }
}

pub open spec fn shows_gross(r: GetAmountToWrapResponse, c: ConfigView, target: u128) -> bool {
    &&& r.target_amount@ == digits(target as nat)
    &&& r.amount_to_wrap@ == digits(gross_of(target, c.fee_percentage))
}

/// Shows what has to be sent so that an amount gets minted.
pub fn query_amount_to_wrap(deps: &Deps<'_>, target_amount: String) -> (res: Result<
    GetAmountToWrapResponse,
    WrapperError,
>)
    requires
        gross_query_fits(ledger_seen(*deps), target_amount@),
    ensures
        match amount_query_refusal(ledger_seen(*deps), target_amount@) {
            Some(f) => res matches Err(e) && e@ == f,
            None => res matches Ok(r) && shows_gross(
                r,
                ledger_seen(*deps).settings(),
                amount_of(target_amount@)->Ok_0,
            ),
        },
{
    let config = match load_config(deps) {
        Ok(config) => config,
        Err(e) => return Err(WrapperError::Std(e)),
    };
    let target = match parse_amount(target_amount.as_str()) {
        Ok(v) => v,
        Err(e) => return Err(e),
    };
    let amount_to_wrap = get_amount_to_wrap(target, config.fee_percentage);
    Ok(
        GetAmountToWrapResponse {
            target_amount: number_to_string(target),
            amount_to_wrap: number_to_string(amount_to_wrap),
        },
    )
}

/// Why a query is refused, if it is.
pub open spec fn query_refusal(l: Ledger, msg: QueryMsg) -> Option<Refusal> {
    match msg {
        QueryMsg::Config {  } => by_std(l.config.load_fault()),
        QueryMsg::FeeFromAmount { amount_to_wrap } => amount_query_refusal(l, amount_to_wrap@),
        QueryMsg::GetAmountToWrap { target_amount } => amount_query_refusal(l, target_amount@),
        QueryMsg::TokenInfo {  } => by_std(l.token.info.load_fault()),
        QueryMsg::Balance { address } => by_std(l.balance_fault(address@)),
        QueryMsg::Allowance { owner, spender } => by_std(
            l.allowance_fault(owner@, spender@),
        ),
    }
}

/// Whether an answer shows what a query asks for.
pub open spec fn shows(l: Ledger, msg: QueryMsg, r: QueryResponse) -> bool {
    match msg {
        QueryMsg::Config {  } => r matches QueryResponse::Config(a) && shows_config(
            a,
            l.settings(),
        ),
        QueryMsg::FeeFromAmount { amount_to_wrap } => r matches QueryResponse::FeeFromAmount(a)
            && shows_fee(a, l.settings(), amount_of(amount_to_wrap@)->Ok_0),
        QueryMsg::GetAmountToWrap { target_amount } => r matches QueryResponse::GetAmountToWrap(a)
            && shows_gross(a, l.settings(), amount_of(target_amount@)->Ok_0),
        QueryMsg::TokenInfo {  } => {
            let t = l.token.info->Holds_0;
            &&& r matches QueryResponse::TokenInfo(a)
            &&& a.name@ == t.name
            &&& a.symbol@ == t.symbol
            &&& a.decimals == t.decimals
            &&& a.total_supply == t.total_supply
        },
        QueryMsg::Balance { address } => r == (QueryResponse::Balance {
            balance: l.token.held(address@),
        }),
        QueryMsg::Allowance { owner, spender } => {
            &&& r matches QueryResponse::Allowance(a)
            &&& l.token.allowed(owner@, spender@) == (AllowanceView {
                allowance: a.allowance,
                expires: a.expires,
            })
        },
    }
}

/// Whether every number and storage key that a query gets to fits: on a query
/// that breaks this the contract would panic.
pub open spec fn query_fits(l: Ledger, msg: QueryMsg) -> bool {
    match msg {
        QueryMsg::FeeFromAmount { amount_to_wrap } => fee_query_fits(l, amount_to_wrap@),
        QueryMsg::GetAmountToWrap { target_amount } => gross_query_fits(l, target_amount@),
        QueryMsg::Allowance { owner, spender } => l.names_both(owner@, spender@) ==> fits_in_key(
            owner@,
        ),
        _ => true,
    }
}

/// The promise of `query`.
pub open spec fn answered(
    l: Ledger,
    msg: QueryMsg,
    res: Result<QueryResponse, WrapperError>,
) -> bool {
    match query_refusal(l, msg) {
        Some(f) => res matches Err(e) && e@ == f,
        None => res matches Ok(r) && shows(l, msg, r),
    }
}

/// Answers a query.
pub fn query(deps: Deps<'_>, _env: Env, msg: QueryMsg) -> (res: Result<QueryResponse, WrapperError>)
    requires
        query_fits(ledger_seen(deps), msg),
    ensures
        answered(ledger_seen(deps), msg, res),
{
    match msg {
        // The contract's own queries
        QueryMsg::Config {  } => match query_config(&deps) {
            Ok(r) => Ok(QueryResponse::Config(r)),
            Err(e) => Err(e),
        },
        QueryMsg::FeeFromAmount { amount_to_wrap } => match query_fee_from_amount(
            &deps,
            amount_to_wrap,
        ) {
            Ok(r) => Ok(QueryResponse::FeeFromAmount(r)),
            Err(e) => Err(e),
        },
        QueryMsg::GetAmountToWrap { target_amount } => match query_amount_to_wrap(
            &deps,
            target_amount,
        ) {
            Ok(r) => Ok(QueryResponse::GetAmountToWrap(r)),
            Err(e) => Err(e),
        },
        // The cw20 standard
        QueryMsg::TokenInfo {  } => match query_token_info(&deps) {
            Ok(r) => Ok(QueryResponse::TokenInfo(r)),
            Err(e) => Err(WrapperError::Std(e)),
        },
        QueryMsg::Balance { address } => match query_balance(&deps, address) {
            Ok(balance) => Ok(QueryResponse::Balance { balance }),
            Err(e) => Err(WrapperError::Std(e)),
        },
        QueryMsg::Allowance { owner, spender } => match query_allowance(&deps, owner, spender) {
            Ok(r) => Ok(QueryResponse::Allowance(r)),
            Err(e) => Err(WrapperError::Std(e)),
        },
    }
}

} // verus!
