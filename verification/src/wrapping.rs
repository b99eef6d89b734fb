//! Wrapping and unwrapping: native and cw20 tokens against the wrapped token.
use crate::error::{by_std, by_token, first, generic, std_fault, token_error, Refusal, WrapperError};
use crate::msg::{Coin, Cw20HookMsg, Cw20ReceiveMsg, Env, MessageInfo};
use crate::reply::{
    add_attribute, add_bank_send, add_wasm_execute, encode_transfer, lemma_attribute_keys, new_reply,
    reply_view, saying, transfer_payload, Outgoing, ReplyView,
};
use crate::state::{
    as_ref, ledger, load_config, load_supply, save_supply, ConfigView, DepsMut, Ledger, Slot, Supply,
};
use crate::text::{digits, number_to_string};
use crate::token::{execute_burn, execute_mint};
use crate::utils::{
    fee_of, get_fee_from_amount, is_valid_address, is_valid_unwrap_amount, is_valid_wrap_amount,
};
use vstd::prelude::*;

verus! {

/// How a handler answers: with the refusal, if there is one, else with the reply.
pub open spec fn answers(
    res: Result<cosmwasm_std::Response, WrapperError>,
    refusal: Option<Refusal>,
    reply: ReplyView,
) -> bool {
    match refusal {
        Some(f) => res matches Err(e) && e@ == f,
        None => res matches Ok(r) && reply_view(r) == reply,
    }
}

/// The amount of the first coin of a denomination.
pub open spec fn sent_native(funds: Seq<Coin>, denom: Seq<char>) -> Option<u128>
    decreases funds.len(),
{
    if funds.len() == 0 {
        None
    } else if funds[0].denom@ == denom {
        Some(funds[0].amount)
    } else {
        sent_native(funds.drop_first(), denom)
    }
}

/// What is minted for `amount`: all of it but the fee.
pub open spec fn minted_for(c: ConfigView, amount: u128) -> u128 {
    (amount - fee_of(amount, c.fee_percentage)) as u128
}

impl Ledger {
    /// The settings, where they are stored.
    pub open spec fn settings(self) -> ConfigView {
        self.config->Holds_0
    }

    pub open spec fn issued_amount(self) -> u128 {
        self.issued->Holds_0
    }

    pub open spec fn with_issued(self, issued: int) -> Ledger {
        Ledger { issued: Slot::Holds(issued as u128), ..self }
    }

    /// Whether `amount` may be wrapped: it is not zero and within the limit.
    pub open spec fn wraps(self, amount: u128) -> bool {
        amount > 0 && self.within_limit(amount)
    }

    /// The fee is part of the amount, and minting the rest for `to` fits.
    pub open spec fn wrap_fits(self, env: Env, to: Seq<char>, amount: u128) -> bool {
        &&& fee_of(amount, self.settings().fee_percentage) <= amount
        &&& self.mint_fits(env.contract@, to, minted_for(self.settings(), amount))
    }

    /// Why the token does not mint what `amount` is worth to `to`.
    pub open spec fn wrap_refusal(self, env: Env, to: Seq<char>, amount: u128) -> Option<Refusal> {
        by_token(self.mint_fault(env.contract@, to, minted_for(self.settings(), amount)))
    }

    /// The ledger once the issued amount has grown by what `amount` is worth.
    pub open spec fn booked(self, amount: u128) -> Ledger {
        self.with_issued(self.issued_amount() + minted_for(self.settings(), amount))
    }

    /// The ledger once `amount` was wrapped for `to`.
    pub open spec fn wrapped(self, to: Seq<char>, amount: u128) -> Ledger {
        self.booked(amount).with_token(
            self.token.minted(to, minted_for(self.settings(), amount)),
        )
    }

    /// The ledger once the token has refused to mint what `amount` is worth.
    pub open spec fn wrap_leaves(self, env: Env, amount: u128) -> Ledger {
        self.booked(amount).with_token(
            self.mint_leaves(env.contract@, minted_for(self.settings(), amount)),
        )
    }

    /// The ledger once `amount` was unwrapped by `who`.
    pub open spec fn unwrapped(self, who: Seq<char>, amount: u128) -> Ledger {
        self.with_issued(self.issued_amount() - amount).with_token(
            self.token.destroyed(who, amount),
        )
    }
}

/// The first coin of a denomination among the funds.
pub fn find_native(funds: &Vec<Coin>, denom: &String) -> (res: Option<u128>)
    ensures
        res == sent_native(funds@, denom@),
{
    let mut i: usize = 0;
    assert(funds@.skip(0) =~= funds@);
    while i < funds.len()
        invariant
            i <= funds.len(),
            sent_native(funds@, denom@) == sent_native(funds@.skip(i as int), denom@),
        decreases funds.len() - i,
    {
        assert(funds@.skip(i as int)[0] == funds@[i as int]);
        assert(funds@.skip(i as int).drop_first() =~= funds@.skip(i + 1));
        if funds[i].denom == *denom {
            return Some(funds[i].amount);
        }
        i = i + 1;
    }
    None
}

/// The native tokens that a message brings, if the contract wraps them.
pub open spec fn native_to_wrap(l: Ledger, info: MessageInfo) -> Result<u128, Refusal> {
    if let Some(f) = by_std(l.config.load_fault()) {
        Err(f)
    } else if !l.settings().is_native_allowed {
        Err(Refusal::Generic("Wrapping native token is not allowed in this token wrapper"@))
    } else {
        match sent_native(info.funds@, l.settings().native_token_denom) {
            None => Err(Refusal::InsufficientFunds),
            Some(amount) => if l.wraps(amount) {
                Ok(amount)
            } else {
                Err(Refusal::Generic("Invalid native token amount"@))
            },
        }
    }
}

pub open spec fn wrap_native_refusal(l: Ledger, env: Env, info: MessageInfo) -> Option<Refusal> {
    match native_to_wrap(l, info) {
        Err(f) => Some(f),
        Ok(amount) => l.wrap_refusal(env, info.sender@, amount),
    }
}

pub open spec fn wrap_native_fits(l: Ledger, env: Env, info: MessageInfo) -> bool {
    native_to_wrap(l, info) matches Ok(amount) ==> l.wrap_fits(env, info.sender@, amount)
}

pub open spec fn wrap_native_reply(l: Ledger, info: MessageInfo) -> ReplyView {
    let c = l.settings();
    let amount = native_to_wrap(l, info)->Ok_0;
    let fee = fee_of(amount, c.fee_percentage);
    saying(
        seq![
            Outgoing::BankSend {
                to: c.fee_recipient,
                amount: fee as u128,
                denom: c.native_token_denom,
            },
        ],
        seq![
            ("action"@, "wrap_native"@),
            ("from"@, info.sender@),
            ("minted"@, digits(minted_for(c, amount) as nat)),
            ("fee"@, digits(fee)),
        ],
    )
}

/// Wraps the native tokens that come with the message: all but the fee is minted
/// for the sender, and the fee is sent on.
pub fn wrap_native(
    deps: &mut DepsMut<'_>,
    env: Env,
    info: MessageInfo,
) -> (res: Result<cosmwasm_std::Response, WrapperError>)
    requires
        wrap_native_fits(ledger(*old(deps)), env, info),
    ensures
        answers(
            res,
            wrap_native_refusal(ledger(*old(deps)), env, info),
            wrap_native_reply(ledger(*old(deps)), info),
        ),
        res is Ok ==> ledger(*final(deps)) == ledger(*old(deps)).wrapped(
            info.sender@,
            native_to_wrap(ledger(*old(deps)), info)->Ok_0,
        ),
        res is Err ==> match native_to_wrap(ledger(*old(deps)), info) {
            Err(_) => ledger(*final(deps)) == ledger(*old(deps)),
            Ok(amount) => ledger(*final(deps)) == ledger(*old(deps)).wrap_leaves(env, amount),
        },
{
    // Check if the wrapping native token is allowed
    let config = match load_config(&as_ref(deps)) {
        Ok(config) => config,
        Err(e) => return Err(WrapperError::Std(e)),
    };
    if !config.is_native_allowed {
        return Err(generic("Wrapping native token is not allowed in this token wrapper"));
    }

    // Validate the wrapping amount
    let wrapping_amount = match find_native(&info.funds, &config.native_token_denom) {
        Some(amount) => amount,
        None => return Err(WrapperError::InsufficientFunds {  }),
    };
    if wrapping_amount == 0 || !is_valid_wrap_amount(&as_ref(deps), wrapping_amount) {
        return Err(generic("Invalid native token amount"));
    }

    // Calculate the fee and what is left to wrap
    let cost_to_wrap = get_fee_from_amount(wrapping_amount, config.fee_percentage);
    let left_over: u128 = wrapping_amount - cost_to_wrap;

    // Save the wrapped token amount
    let mut supply = match load_supply(&as_ref(deps)) {
        Ok(supply) => supply,
        Err(e) => return Err(WrapperError::Std(e)),
    };
    supply.issued = supply.issued + left_over;
    if let Err(e) = save_supply(deps, supply) {
        return Err(WrapperError::Std(e));
    }

    // Mint as the contract itself, as no one else is allowed
    let minter = env.contract.as_str();
    if let Err(e) = execute_mint(deps, &env, minter, info.sender.clone(), left_over) {
        return Err(WrapperError::Token(token_error(e)));
    }

    // Send the fee to the fee recipient
    proof {
        lemma_attribute_keys();
    }
    let r = new_reply();
    let r = add_bank_send(r, config.fee_recipient, cost_to_wrap, config.native_token_denom);
    let r = add_attribute(r, "action", "wrap_native".to_owned());
    let r = add_attribute(r, "from", info.sender);
    let r = add_attribute(r, "minted", number_to_string(left_over));
    let r = add_attribute(r, "fee", number_to_string(cost_to_wrap));
    assert(reply_view(r) =~= wrap_native_reply(ledger(*old(deps)), info));
    Ok(r)
}

/// Why a cw20 token contract cannot have its tokens wrapped.
pub open spec fn cw20_to_wrap_refusal(l: Ledger, info: MessageInfo, amount: u128) -> Option<
    Refusal,
> {
    if !l.is_listed(info.sender@) {
        Some(Refusal::Generic("Invalid Cw20 token address"@))
    } else if !l.wraps(amount) {
        Some(Refusal::Generic("Invalid cw20 token"@))
    } else {
        None
    }
}

pub open spec fn wrap_cw20_refusal(
    l: Ledger,
    env: Env,
    info: MessageInfo,
    cw20_msg: Cw20ReceiveMsg,
) -> Option<Refusal> {
    match cw20_to_wrap_refusal(l, info, cw20_msg.amount) {
        Some(f) => Some(f),
        None => match cw20_msg.msg {
            Err(e) => Some(Refusal::Std(std_fault(e))),
            Ok(_) => l.wrap_refusal(env, cw20_msg.sender@, cw20_msg.amount),
        },
    }
}

pub open spec fn wrap_cw20_fits(
    l: Ledger,
    env: Env,
    info: MessageInfo,
    cw20_msg: Cw20ReceiveMsg,
) -> bool {
    cw20_to_wrap_refusal(l, info, cw20_msg.amount) is None ==> {
        &&& fee_of(cw20_msg.amount, l.settings().fee_percentage) <= cw20_msg.amount
        &&& cw20_msg.msg is Ok ==> l.wrap_fits(env, cw20_msg.sender@, cw20_msg.amount)
    }
}

pub open spec fn wrap_cw20_reply(
    l: Ledger,
    info: MessageInfo,
    cw20_msg: Cw20ReceiveMsg,
) -> ReplyView {
    let c = l.settings();
    let fee = fee_of(cw20_msg.amount, c.fee_percentage);
    saying(
        seq![
            Outgoing::WasmExecute {
                contract: info.sender@,
                msg: transfer_payload(c.fee_recipient, fee as u128),
            },
        ],
        seq![
            ("action"@, "wrap_cw20"@),
            ("from"@, cw20_msg.sender@),
            ("minted"@, digits(minted_for(c, cw20_msg.amount) as nat)),
            ("fee"@, digits(fee)),
        ],
    )
}

/// Wraps cw20 tokens that the sending token contract has received for this one:
/// all but the fee is minted for whoever sent them, and the fee is sent on.
pub fn wrap_cw20(
    deps: &mut DepsMut<'_>,
    env: Env,
    info: MessageInfo,
    cw20_msg: Cw20ReceiveMsg,
) -> (res: Result<cosmwasm_std::Response, WrapperError>)
    requires
        wrap_cw20_fits(ledger(*old(deps)), env, info, cw20_msg),
    ensures
        answers(
            res,
            wrap_cw20_refusal(ledger(*old(deps)), env, info, cw20_msg),
            wrap_cw20_reply(ledger(*old(deps)), info, cw20_msg),
        ),
        res is Ok ==> ledger(*final(deps)) == ledger(*old(deps)).wrapped(
            cw20_msg.sender@,
            cw20_msg.amount,
        ),
        res is Err ==> match wrap_cw20_refusal(ledger(*old(deps)), env, info, cw20_msg) {
            Some(Refusal::Token(_)) => ledger(*final(deps)) == ledger(*old(deps)).wrap_leaves(
                env,
                cw20_msg.amount,
            ),
            _ => ledger(*final(deps)) == ledger(*old(deps)),
        },
        res matches Err(WrapperError::Std(e)) ==> cw20_msg.msg == Err::<Cw20HookMsg, _>(e),
{
    let sender = cw20_msg.sender;
    let cw20_address = info.sender;

    // Validate the cw20 address
    if !is_valid_address(&as_ref(deps), cw20_address.as_str()) {
        return Err(generic("Invalid Cw20 token address"));
    }

    // Validate the cw20 token amount
    let cw20_token_amount = cw20_msg.amount;
    if cw20_token_amount == 0 || !is_valid_wrap_amount(&as_ref(deps), cw20_token_amount) {
        return Err(generic("Invalid cw20 token"));
    }

    // Calculate the fee and what is left to wrap
    let config = match load_config(&as_ref(deps)) {
        Ok(config) => config,
        Err(e) => return Err(WrapperError::Std(e)),
    };
    let cost_to_wrap = get_fee_from_amount(cw20_token_amount, config.fee_percentage);
    let left_over: u128 = cw20_token_amount - cost_to_wrap;

    match cw20_msg.msg {
        Ok(Cw20HookMsg::Wrap {  }) => {
            // Save the wrapping number
            let mut supply = match load_supply(&as_ref(deps)) {
                Ok(supply) => supply,
                Err(e) => return Err(WrapperError::Std(e)),
            };
            supply.issued = supply.issued + left_over;
            if let Err(e) = save_supply(deps, supply) {
                return Err(WrapperError::Std(e));
            }

            // Mint as the contract itself, as no one else is allowed
            let minter = env.contract.as_str();
            if let Err(e) = execute_mint(deps, &env, minter, sender.clone(), left_over) {
                return Err(WrapperError::Token(token_error(e)));
            }

            // Send the fee to the fee recipient
            let payload = match encode_transfer(config.fee_recipient, cost_to_wrap) {
                Ok(payload) => payload,
                Err(e) => return Err(WrapperError::Std(e)),
            };
            proof {
                lemma_attribute_keys();
            }
            let r = new_reply();
            let r = add_wasm_execute(r, cw20_address, payload);
            let r = add_attribute(r, "action", "wrap_cw20".to_owned());
            let r = add_attribute(r, "from", sender);
            let r = add_attribute(r, "minted", number_to_string(left_over));
            let r = add_attribute(r, "fee", number_to_string(cost_to_wrap));
            assert(reply_view(r) =~= wrap_cw20_reply(ledger(*old(deps)), info, cw20_msg));
            Ok(r)
        },
        Err(e) => Err(WrapperError::Std(e)),
    }
}

/// Why the token wrapper does not hand out `amount` for the tokens of `who`, who
/// holds enough of them.
pub open spec fn redeem_refusal(l: Ledger, who: Seq<char>, amount: u128) -> Option<Refusal> {
    first(by_std(l.issued.load_fault()), by_token(l.burn_fault(who, amount)))
}

/// Why the native token is not paid out to the sender.
pub open spec fn native_to_unwrap_refusal(l: Ledger, info: MessageInfo, amount: u128) -> Option<
    Refusal,
> {
    if l.config !is Holds {
        by_std(l.config.load_fault())
    } else if !l.settings().is_native_allowed {
        Some(Refusal::Generic("Unwrapping native token is not allowed in this token wrapper"@))
    } else if !l.holds_enough(info.sender@, amount) {
        Some(Refusal::Generic("Insufficient native token balance"@))
    } else {
        None
    }
}

pub open spec fn unwrap_native_refusal(l: Ledger, info: MessageInfo, amount: u128) -> Option<
    Refusal,
> {
    first(native_to_unwrap_refusal(l, info, amount), redeem_refusal(l, info.sender@, amount))
}

/// The issued amount covers what is taken off it.
pub open spec fn unwrap_native_fits(l: Ledger, info: MessageInfo, amount: u128) -> bool {
    native_to_unwrap_refusal(l, info, amount) is None && l.issued is Holds ==> amount
        <= l.issued_amount()
}

pub open spec fn unwrap_native_reply(l: Ledger, info: MessageInfo, amount: u128) -> ReplyView {
    saying(
        seq![
            Outgoing::BankSend {
                to: info.sender@,
                amount,
                denom: l.settings().native_token_denom,
            },
        ],
        seq![
            ("action"@, "unwrap_native"@),
            ("from"@, info.sender@),
            ("unwrap"@, digits(amount as nat)),
            ("refund"@, digits(amount as nat)),
        ],
    )
}

/// Burns `amount` of the sender's wrapped tokens and pays out as much of the
/// native token.
pub fn unwrap_native(
    deps: &mut DepsMut<'_>,
    env: Env,
    info: MessageInfo,
    amount: u128,
) -> (res: Result<cosmwasm_std::Response, WrapperError>)
    requires
        unwrap_native_fits(ledger(*old(deps)), info, amount),
    ensures
        answers(
            res,
            unwrap_native_refusal(ledger(*old(deps)), info, amount),
            unwrap_native_reply(ledger(*old(deps)), info, amount),
        ),
        res is Ok ==> ledger(*final(deps)) == ledger(*old(deps)).unwrapped(info.sender@, amount),
        res is Err ==> match unwrap_native_refusal(ledger(*old(deps)), info, amount) {
            Some(Refusal::Token(_)) => ledger(*final(deps)) == ledger(*old(deps)).with_token(
                ledger(*old(deps)).burn_leaves(info.sender@, amount),
            ),
            _ => ledger(*final(deps)) == ledger(*old(deps)),
        },
{
    let config = match load_config(&as_ref(deps)) {
        Ok(config) => config,
        Err(e) => return Err(WrapperError::Std(e)),
    };
    // Validate that the native token is allowed
    if !config.is_native_allowed {
        return Err(generic("Unwrapping native token is not allowed in this token wrapper"));
    }

    // Validate the amount
    if !is_valid_unwrap_amount(&as_ref(deps), &info, amount) {
        return Err(generic("Insufficient native token balance"));
    }

    // Calculate the remainder
    let total_supply = match load_supply(&as_ref(deps)) {
        Ok(supply) => supply,
        Err(e) => return Err(WrapperError::Std(e)),
    };
    let remainder: u128 = total_supply.issued - amount;

    // Burn from the sender
    if let Err(e) = execute_burn(deps, &env, info.sender.as_str(), amount) {
        return Err(WrapperError::Token(token_error(e)));
    }

    // Save the remainder
    if let Err(e) = save_supply(deps, Supply { issued: remainder }) {
        return Err(WrapperError::Std(e));
    }

    // Refund the native token
    proof {
        lemma_attribute_keys();
    }
    let r = new_reply();
    let r = add_bank_send(r, info.sender.clone(), amount, config.native_token_denom);
    let r = add_attribute(r, "action", "unwrap_native".to_owned());
    let r = add_attribute(r, "from", info.sender);
    let r = add_attribute(r, "unwrap", number_to_string(amount));
    let r = add_attribute(r, "refund", number_to_string(amount));
    assert(reply_view(r) =~= unwrap_native_reply(ledger(*old(deps)), info, amount));
    Ok(r)
}

/// Why tokens of a cw20 token contract are not paid out to the sender.
pub open spec fn cw20_to_unwrap_refusal(
    l: Ledger,
    info: MessageInfo,
    token: Seq<char>,
    amount: u128,
) -> Option<Refusal> {
    if !l.is_listed(token) {
        Some(Refusal::Generic("Invalid Cw20 token address"@))
    } else if !l.holds_enough(info.sender@, amount) {
        Some(Refusal::Generic("Insufficient cw20 token amount"@))
    } else {
        None
    }
}

pub open spec fn unwrap_cw20_refusal(
    l: Ledger,
    info: MessageInfo,
    token: Seq<char>,
    amount: u128,
) -> Option<Refusal> {
    first(cw20_to_unwrap_refusal(l, info, token, amount), redeem_refusal(l, info.sender@, amount))
}

/// The issued amount covers what is taken off it.
pub open spec fn unwrap_cw20_fits(
    l: Ledger,
    info: MessageInfo,
    token: Seq<char>,
    amount: u128,
) -> bool {
    cw20_to_unwrap_refusal(l, info, token, amount) is None && l.issued is Holds ==> amount
        <= l.issued_amount()
}

pub open spec fn unwrap_cw20_reply(info: MessageInfo, token: Seq<char>, amount: u128) -> ReplyView {
    saying(
        seq![
            Outgoing::WasmExecute {
                contract: token,
                msg: transfer_payload(info.sender@, amount),
            },
        ],
        seq![
            ("action"@, "unwrap_cw20"@),
            ("from"@, info.sender@),
            ("unwrap"@, digits(amount as nat)),
            ("refund"@, digits(amount as nat)),
        ],
    )
}

/// Burns `amount` of the sender's wrapped tokens and has as much of the named
/// cw20 token transferred to the sender.
pub fn unwrap_cw20(
    deps: &mut DepsMut<'_>,
    env: Env,
    info: MessageInfo,
    token: String,
    amount: u128,
) -> (res: Result<cosmwasm_std::Response, WrapperError>)
    requires
        unwrap_cw20_fits(ledger(*old(deps)), info, token@, amount),
    ensures
        answers(
            res,
            unwrap_cw20_refusal(ledger(*old(deps)), info, token@, amount),
            unwrap_cw20_reply(info, token@, amount),
        ),
        res is Ok ==> ledger(*final(deps)) == ledger(*old(deps)).unwrapped(info.sender@, amount),
        res is Err ==> match unwrap_cw20_refusal(ledger(*old(deps)), info, token@, amount) {
            Some(Refusal::Token(_)) => ledger(*final(deps)) == ledger(*old(deps)).with_token(
                ledger(*old(deps)).burn_leaves(info.sender@, amount),
            ),
            _ => ledger(*final(deps)) == ledger(*old(deps)),
        },
{
    // Validate the token address
    if !is_valid_address(&as_ref(deps), token.as_str()) {
        return Err(generic("Invalid Cw20 token address"));
    }

    // Validate the token amount
    if !is_valid_unwrap_amount(&as_ref(deps), &info, amount) {
        return Err(generic("Insufficient cw20 token amount"));
    }

    // Calculate the remainder
    let total_supply = match load_supply(&as_ref(deps)) {
        Ok(supply) => supply,
        Err(e) => return Err(WrapperError::Std(e)),
    };
    let remainder: u128 = total_supply.issued - amount;

    // Burn from the sender
    if let Err(e) = execute_burn(deps, &env, info.sender.as_str(), amount) {
        return Err(WrapperError::Token(token_error(e)));
    }

    // Save the remainder
    if let Err(e) = save_supply(deps, Supply { issued: remainder }) {
        return Err(WrapperError::Std(e));
    }

    // Refund the cw20 token
    let payload = match encode_transfer(info.sender.clone(), amount) {
        Ok(payload) => payload,
        Err(e) => return Err(WrapperError::Std(e)),
    };
    proof {
        lemma_attribute_keys();
    }
    let r = new_reply();
    let r = add_wasm_execute(r, token, payload);
    let r = add_attribute(r, "action", "unwrap_cw20".to_owned());
    let r = add_attribute(r, "from", info.sender);
    let r = add_attribute(r, "unwrap", number_to_string(amount));
    let r = add_attribute(r, "refund", number_to_string(amount));
    assert(reply_view(r) =~= unwrap_cw20_reply(info, token@, amount));
    Ok(r)
}

} // verus!
