//! What callers can rely on, entry by entry. Each law takes whatever an entry has
//! answered and says in plain terms what it must have done: which coins went where,
//! which balances moved and by how much, and on which grounds it may refuse.
use crate::contract::{answered, execute_fits, handled, query_fits};
use crate::error::{std_fault, StdFault, TokenFault, WrapperError};
use crate::governance::{amount_of, percent, percentage, set_up};
use crate::limits::{attempted, query_attempted};
use crate::msg::{
    Coin, Cw20ReceiveMsg, Env, ExecuteMsg, Expiration, InstantiateMsg, MessageInfo, QueryMsg,
    QueryResponse,
};
use crate::reply::{attributes, data, events, sent_messages, transfer_payload, Outgoing};
use crate::state::{slot, AllowanceView, ConfigView, Ledger, Slot, TokenBook, TokenInfoView};
use crate::text::{decimal_text, digits, numeral, u128_parse_failure, u64_parse_failure};
use crate::token::receive_payload;
use crate::utils::{
    fee_of, gross_of, law_amount_to_wrap_leaves_target, law_fee_within_amount,
};
use crate::wrapping::sent_native;
use vstd::prelude::*;

verus! {

/// Carried out, with these messages and these attributes and nothing else.
pub open spec fn done(
    res: Result<cosmwasm_std::Response, WrapperError>,
    messages: Seq<Outgoing>,
    attrs: Seq<(Seq<char>, Seq<char>)>,
) -> bool {
    &&& res matches Ok(r)
    &&& sent_messages(r) == messages
    &&& attributes(r) == attrs
    &&& events(r).len() == 0
    &&& data(r) is None
}

/// Refused in words.
pub open spec fn refused_saying(
    res: Result<cosmwasm_std::Response, WrapperError>,
    text: Seq<char>,
) -> bool {
    res matches Err(WrapperError::Generic(t)) && t@ == text
}

/// Refused with an error of the chain.
pub open spec fn refused_by_chain(
    res: Result<cosmwasm_std::Response, WrapperError>,
    fault: StdFault,
) -> bool {
    res matches Err(WrapperError::Std(e)) && std_fault(e) == fault
}

/// Refused with an error of the token.
pub open spec fn refused_by_token(
    res: Result<cosmwasm_std::Response, WrapperError>,
    fault: TokenFault,
) -> bool {
    res matches Err(WrapperError::Token(e)) && e@ == fault
}

/// The fee for `amount`: the largest whole number that is not more than the share of
/// `rate` in 10^18.
pub open spec fn is_fee(fee: nat, amount: u128, rate: u128) -> bool {
    fee * 1_000_000_000_000_000_000 <= amount * rate < (fee + 1) * 1_000_000_000_000_000_000
}

/// The first coin of a denomination stands at `i`.
pub open spec fn first_of(funds: Seq<Coin>, denom: Seq<char>, i: int) -> bool {
    &&& 0 <= i < funds.len()
    &&& funds[i].denom@ == denom
    &&& forall|j: int| 0 <= j < i ==> (#[trigger] funds[j]).denom@ != denom
}

/// No coin is of a denomination.
pub open spec fn none_of(funds: Seq<Coin>, denom: Seq<char>) -> bool {
    forall|j: int| 0 <= j < funds.len() ==> (#[trigger] funds[j]).denom@ != denom
}

/// The fee is the share of the amount that the rate says, rounded down, and never
/// more than the amount if the rate is not more than the whole.
pub proof fn law_fee_is_the_share(amount: u128, rate: u128)
    ensures
        is_fee(fee_of(amount, rate), amount, rate),
        rate <= 1_000_000_000_000_000_000 ==> fee_of(amount, rate) <= amount,
        rate < 1_000_000_000_000_000_000 && amount > 0 ==> fee_of(amount, rate) < amount,
        rate == 0 ==> fee_of(amount, rate) == 0,
        rate == 1_000_000_000_000_000_000 ==> fee_of(amount, rate) == amount,
{
    let a = amount as int;
    let r = rate as int;
    let fee = fee_of(amount, rate) as int;
    let p = a * r;
    assert(fee == p / 1_000_000_000_000_000_000);
    if rate <= 1_000_000_000_000_000_000 {
        law_fee_within_amount(amount, rate);
    }
    if rate < 1_000_000_000_000_000_000 && amount > 0 {
        assert(p < a * 1_000_000_000_000_000_000) by (nonlinear_arith)
            requires
                p == a * r,
                a > 0,
                0 <= r < 1_000_000_000_000_000_000,
        ;
    }
}

/// The amount to send for a target is the largest whole number of which the part
/// that is left after the fee rate is not more than the target.
pub proof fn law_gross_is_the_largest(target: u128, rate: u128)
    requires
        rate < 1_000_000_000_000_000_000,
    ensures
        gross_of(target, rate) * (1_000_000_000_000_000_000 - rate) <= target
            * 1_000_000_000_000_000_000,
        target * 1_000_000_000_000_000_000 < (gross_of(target, rate) + 1) * (
        1_000_000_000_000_000_000 - rate),
{
    let net = 1_000_000_000_000_000_000 - rate;
    let p = target as int * 1_000_000_000_000_000_000;
    let g = gross_of(target, rate) as int;
    assert(g == p / net);
    vstd::arithmetic::div_mod::lemma_fundamental_div_mod(p, net);
    assert(0 <= p % net < net) by (nonlinear_arith)
        requires
            net > 0,
    ;
    assert((g + 1) * net == net * g + net && g * net == net * g) by (nonlinear_arith);
}

/// Looking for the coin of a denomination finds the first one, and finds one only
/// where there is one.
pub proof fn law_native_coin_is_the_first(funds: Seq<Coin>, denom: Seq<char>) -> (i: int)
    ensures
        sent_native(funds, denom) is None <==> none_of(funds, denom),
        sent_native(funds, denom) matches Some(amount) ==> first_of(funds, denom, i)
            && funds[i].amount == amount,
    decreases funds.len(),
{
    if funds.len() == 0 {
        0
    } else if funds[0].denom@ == denom {
        0
    } else {
        let rest = funds.drop_first();
        let j = law_native_coin_is_the_first(rest, denom);
        assert forall|k: int| 0 <= k < rest.len() implies rest[k] == #[trigger] funds[k + 1] by {}
        if none_of(rest, denom) {
            assert forall|k: int| 0 <= k < funds.len() implies (#[trigger] funds[k]).denom@
                != denom by {
                if k > 0 {
                    assert(rest[k - 1] == funds[k]);
                }
            }
        } else {
            assert forall|k: int| 0 <= k < j + 1 implies (#[trigger] funds[k]).denom@ != denom by {
                if k > 0 {
                    assert(rest[k - 1] == funds[k]);
                }
            }
            assert(rest[j] == funds[j + 1]);
        }
        j + 1
    }
}

/// The ledger before and after `amount` was taken in for `who` against a `fee`:
/// the rest is minted for `who` and booked as issued, within the limit, and nothing
/// else changes.
pub open spec fn deposited(
    l: Ledger,
    after: Ledger,
    who: Seq<char>,
    amount: u128,
    fee: nat,
) -> bool {
    &&& l.config matches Slot::Holds(c)
    &&& l.issued matches Slot::Holds(issued)
    &&& l.token.info matches Slot::Holds(t)
    &&& amount > 0
    &&& issued + amount <= c.wrapping_limit
    &&& is_fee(fee, amount, c.fee_percentage)
    &&& fee < amount
    &&& t.total_supply + amount - fee <= u128::MAX
    &&& l.token.held(who) + amount - fee <= u128::MAX
    &&& after == (Ledger {
        issued: Slot::Holds((issued + amount - fee) as u128),
        token: TokenBook {
            info: Slot::Holds(
                TokenInfoView { total_supply: (t.total_supply + amount - fee) as u128, ..t },
            ),
            balances: l.token.balances.insert(
                who,
                Ok((l.token.held(who) + amount - fee) as u128),
            ),
            ..l.token
        },
        ..l
    })
}

/// Wrapping needs a coin of the native denomination: where native tokens can be
/// wrapped and none comes along, the message is refused for that, and nothing is
/// written.
pub proof fn law_wrapping_needs_a_native_coin(
    l: Ledger,
    after: Ledger,
    env: Env,
    info: MessageInfo,
    res: Result<cosmwasm_std::Response, WrapperError>,
)
    requires
        handled(l, after, env, info, ExecuteMsg::Wrap {  }, res),
        l.config matches Slot::Holds(c) && none_of(info.funds@, c.native_token_denom),
    ensures
        res is Err,
        after == l,
        l.config->Holds_0.is_native_allowed ==> (res matches Err(e)
            && e == WrapperError::InsufficientFunds {  }),
{
    law_native_coin_is_the_first(info.funds@, l.config->Holds_0.native_token_denom);
}

/// What is wrapped is an attached coin of the native denomination, the first one:
/// all of it but the fee is minted for the sender, and the fee goes on to the fee
/// recipient in the same denomination.
pub proof fn law_wrapping_takes_the_native_coin(
    l: Ledger,
    after: Ledger,
    env: Env,
    info: MessageInfo,
    res: Result<cosmwasm_std::Response, WrapperError>,
) -> (r: (int, nat))
    requires
        handled(l, after, env, info, ExecuteMsg::Wrap {  }, res),
        execute_fits(l, env, info, ExecuteMsg::Wrap {  }),
        res is Ok,
    ensures
        l.config is Holds,
        l.config->Holds_0.is_native_allowed,
        ({
            let c = l.config->Holds_0;
            let (i, fee) = r;
            let amount = info.funds@[i].amount;
            &&& first_of(info.funds@, c.native_token_denom, i)
            &&& deposited(l, after, info.sender@, amount, fee)
            &&& done(
                res,
                seq![
                    Outgoing::BankSend {
                        to: c.fee_recipient,
                        amount: fee as u128,
                        denom: c.native_token_denom,
                    },
                ],
                seq![
                    ("action"@, "wrap_native"@),
                    ("from"@, info.sender@),
                    ("minted"@, digits((amount - fee) as nat)),
                    ("fee"@, digits(fee)),
                ],
            )
        }),
{
    let c = l.config->Holds_0;
    let i = law_native_coin_is_the_first(info.funds@, c.native_token_denom);
    let amount = info.funds@[i].amount;
    law_fee_is_the_share(amount, c.fee_percentage);
    (i, fee_of(amount, c.fee_percentage))
}

/// Wrapping is owed: with native tokens allowed, an amount that is not zero and
/// within the limit, a rate below the whole, and a token that this contract mints
/// without a cap, the first native coin is wrapped for any accepted sender.
pub proof fn law_wrapping_is_owed(
    l: Ledger,
    after: Ledger,
    env: Env,
    info: MessageInfo,
    res: Result<cosmwasm_std::Response, WrapperError>,
    i: int,
)
    requires
        handled(l, after, env, info, ExecuteMsg::Wrap {  }, res),
        execute_fits(l, env, info, ExecuteMsg::Wrap {  }),
        can_take_in(l, env, info.sender@, info.funds@[i].amount),
        l.config->Holds_0.is_native_allowed,
        first_of(info.funds@, l.config->Holds_0.native_token_denom, i),
    ensures
        res is Ok,
{
    let c = l.config->Holds_0;
    let j = law_native_coin_is_the_first(info.funds@, c.native_token_denom);
    assert(i == j) by {
        if i < j {
            assert(info.funds@[i].denom@ != c.native_token_denom);
        }
        if j < i {
            assert(info.funds@[j].denom@ != c.native_token_denom);
        }
    }
    law_fee_is_the_share(info.funds@[i].amount, c.fee_percentage);
}

/// Whether the contract, set up as a minter without a cap, can take in `amount` for
/// `who`.
pub open spec fn can_take_in(l: Ledger, env: Env, who: Seq<char>, amount: u128) -> bool {
    &&& l.config matches Slot::Holds(c)
    &&& l.issued matches Slot::Holds(issued)
    &&& l.token.info matches Slot::Holds(t)
    &&& t.mint == Some((env.contract@, None::<u128>))
    &&& c.fee_percentage < 1_000_000_000_000_000_000
    &&& amount > 0
    &&& issued + amount <= c.wrapping_limit
    &&& l.addresses.contains(who)
    &&& slot(l.token.balances, who) !is Garbled
}

/// On which grounds wrapping is refused before the token is asked.
pub proof fn law_wrapping_refusals(
    l: Ledger,
    after: Ledger,
    env: Env,
    info: MessageInfo,
    res: Result<cosmwasm_std::Response, WrapperError>,
    i: int,
)
    requires
        handled(l, after, env, info, ExecuteMsg::Wrap {  }, res),
    ensures
        l.config is Vacant ==> refused_by_chain(res, StdFault::NotFound) && after == l,
        l.config is Garbled ==> refused_by_chain(
            res,
            StdFault::ParseErr { msg: l.config->Garbled_0 },
        ) && after == l,
        l.config is Holds && !l.config->Holds_0.is_native_allowed ==> refused_saying(
            res,
            "Wrapping native token is not allowed in this token wrapper"@,
        ) && after == l,
        l.config is Holds && l.config->Holds_0.is_native_allowed && first_of(
            info.funds@,
            l.config->Holds_0.native_token_denom,
            i,
        ) && (info.funds@[i].amount == 0 || l.issued !is Holds || l.issued->Holds_0
            + info.funds@[i].amount > l.config->Holds_0.wrapping_limit) ==> refused_saying(
            res,
            "Invalid native token amount"@,
        ) && after == l,
{
    let denom = l.config->Holds_0.native_token_denom;
    let j = law_native_coin_is_the_first(info.funds@, denom);
    if first_of(info.funds@, denom, i) {
        assert(!none_of(info.funds@, denom)) by {
            assert(info.funds@[i].denom@ == denom);
        }
        assert(i == j) by {
            if i < j {
                assert(info.funds@[i].denom@ != denom);
            }
            if j < i {
                assert(info.funds@[j].denom@ != denom);
            }
        }
    }
}

/// A notice of cw20 tokens that is carried out came from a token on the wrapping
/// list, asks for wrapping, and has all of the amount but the fee minted for whoever
/// sent the tokens; the token is asked to transfer the fee to the fee recipient.
pub proof fn law_notice_wraps_for_the_sender_of_the_tokens(
    l: Ledger,
    after: Ledger,
    env: Env,
    info: MessageInfo,
    m: Cw20ReceiveMsg,
    res: Result<cosmwasm_std::Response, WrapperError>,
) -> (fee: nat)
    requires
        handled(l, after, env, info, ExecuteMsg::Receive(m), res),
        execute_fits(l, env, info, ExecuteMsg::Receive(m)),
        res is Ok,
    ensures
        slot(l.tokens, info.sender@) == Slot::Holds(true),
        m.msg is Ok,
        deposited(l, after, m.sender@, m.amount, fee),
        done(
            res,
            seq![
                Outgoing::WasmExecute {
                    contract: info.sender@,
                    msg: transfer_payload(l.config->Holds_0.fee_recipient, fee as u128),
                },
            ],
            seq![
                ("action"@, "wrap_cw20"@),
                ("from"@, m.sender@),
                ("minted"@, digits((m.amount - fee) as nat)),
                ("fee"@, digits(fee)),
            ],
        ),
{
    law_fee_is_the_share(m.amount, l.config->Holds_0.fee_percentage);
    fee_of(m.amount, l.config->Holds_0.fee_percentage)
}

/// Wrapping cw20 tokens is owed for a listed token on the same terms as for native
/// ones, whether native tokens can be wrapped or not.
pub proof fn law_notice_is_owed(
    l: Ledger,
    after: Ledger,
    env: Env,
    info: MessageInfo,
    m: Cw20ReceiveMsg,
    res: Result<cosmwasm_std::Response, WrapperError>,
)
    requires
        handled(l, after, env, info, ExecuteMsg::Receive(m), res),
        execute_fits(l, env, info, ExecuteMsg::Receive(m)),
        can_take_in(l, env, m.sender@, m.amount),
        slot(l.tokens, info.sender@) == Slot::Holds(true),
        m.msg is Ok,
    ensures
        res is Ok,
{
    law_fee_is_the_share(m.amount, l.config->Holds_0.fee_percentage);
}

/// On which grounds a notice is refused before the token is asked.
pub proof fn law_notice_refusals(
    l: Ledger,
    after: Ledger,
    env: Env,
    info: MessageInfo,
    m: Cw20ReceiveMsg,
    res: Result<cosmwasm_std::Response, WrapperError>,
)
    requires
        handled(l, after, env, info, ExecuteMsg::Receive(m), res),
    ensures
        ({
            let listed = slot(l.tokens, info.sender@) == Slot::Holds(true);
            let fits = l.config is Holds && l.issued is Holds && m.amount > 0 && l.issued->Holds_0
                + m.amount <= l.config->Holds_0.wrapping_limit;
            &&& !listed ==> refused_saying(res, "Invalid Cw20 token address"@) && after == l
            &&& listed && !fits ==> refused_saying(res, "Invalid cw20 token"@) && after == l
            &&& listed && fits && m.msg is Err ==> {
                &&& res matches Err(e)
                &&& e == WrapperError::Std(m.msg->Err_0)
                &&& after == l
            }
        }),
{
}

/// The ledger before and after `who` gave `amount` back: it is taken off the balance,
/// the total supply and the issued amount, and nothing else changes.
pub open spec fn withdrawn(l: Ledger, after: Ledger, who: Seq<char>, amount: u128) -> bool {
    &&& l.issued matches Slot::Holds(issued)
    &&& l.token.info matches Slot::Holds(t)
    &&& 0 < amount <= l.token.held(who)
    &&& amount <= t.total_supply
    &&& amount <= issued
    &&& after == (Ledger {
        issued: Slot::Holds((issued - amount) as u128),
        token: TokenBook {
            info: Slot::Holds(
                TokenInfoView { total_supply: (t.total_supply - amount) as u128, ..t },
            ),
            balances: l.token.balances.insert(who, Ok((l.token.held(who) - amount) as u128)),
            ..l.token
        },
        ..l
    })
}

/// Unwrapping native tokens is free of charge: one bank message pays the sender
/// exactly the amount, in the native denomination, that is taken off the sender's
/// balance, the total supply and the issued amount, whatever the fee rate is.
pub proof fn law_unwrapping_native_pays_the_amount(
    l: Ledger,
    after: Ledger,
    env: Env,
    info: MessageInfo,
    amount: u128,
    res: Result<cosmwasm_std::Response, WrapperError>,
)
    requires
        handled(l, after, env, info, ExecuteMsg::Unwrap { token: None, amount }, res),
        execute_fits(l, env, info, ExecuteMsg::Unwrap { token: None, amount }),
        res is Ok,
    ensures
        l.config is Holds,
        l.config->Holds_0.is_native_allowed,
        withdrawn(l, after, info.sender@, amount),
        done(
            res,
            seq![
                Outgoing::BankSend {
                    to: info.sender@,
                    amount,
                    denom: l.config->Holds_0.native_token_denom,
                },
            ],
            seq![
                ("action"@, "unwrap_native"@),
                ("from"@, info.sender@),
                ("unwrap"@, digits(amount as nat)),
                ("refund"@, digits(amount as nat)),
            ],
        ),
{
}

/// Unwrapping cw20 tokens is free of charge: the one message that goes out asks the
/// named token, which is on the wrapping list, to transfer to the sender exactly the
/// amount that is taken off the sender's balance, the total supply and the issued
/// amount.
pub proof fn law_unwrapping_cw20_pays_the_amount(
    l: Ledger,
    after: Ledger,
    env: Env,
    info: MessageInfo,
    token: String,
    amount: u128,
    res: Result<cosmwasm_std::Response, WrapperError>,
)
    requires
        handled(l, after, env, info, ExecuteMsg::Unwrap { token: Some(token), amount }, res),
        execute_fits(l, env, info, ExecuteMsg::Unwrap { token: Some(token), amount }),
        res is Ok,
    ensures
        slot(l.tokens, token@) == Slot::Holds(true),
        withdrawn(l, after, info.sender@, amount),
        done(
            res,
            seq![
                Outgoing::WasmExecute {
                    contract: token@,
                    msg: transfer_payload(info.sender@, amount),
                },
            ],
            seq![
                ("action"@, "unwrap_cw20"@),
                ("from"@, info.sender@),
                ("unwrap"@, digits(amount as nat)),
                ("refund"@, digits(amount as nat)),
            ],
        ),
{
}

/// Whether the ledger shows that `who`, an accepted address, holds `amount`.
pub open spec fn is_covered(l: Ledger, who: Seq<char>, amount: u128) -> bool {
    &&& l.addresses.contains(who)
    &&& slot(l.token.balances, who) !is Garbled
    &&& amount <= l.token.held(who)
}

/// Unwrapping is owed to every accepted sender who holds the amount, if it is not
/// zero: native tokens where they are allowed, and tokens that are on the wrapping
/// list.
pub proof fn law_unwrapping_is_owed(
    l: Ledger,
    after: Ledger,
    env: Env,
    info: MessageInfo,
    token: Option<String>,
    amount: u128,
    res: Result<cosmwasm_std::Response, WrapperError>,
)
    requires
        handled(l, after, env, info, ExecuteMsg::Unwrap { token, amount }, res),
        amount > 0,
        is_covered(l, info.sender@, amount),
        l.issued is Holds,
        l.token.info matches Slot::Holds(t) && amount <= t.total_supply,
        match token {
            Some(t) => slot(l.tokens, t@) == Slot::Holds(true),
            None => l.config is Holds && l.config->Holds_0.is_native_allowed,
        },
    ensures
        res is Ok,
{
}

/// On which grounds unwrapping is refused before the token is asked, and that an
/// amount of zero is refused by the token.
pub proof fn law_unwrapping_refusals(
    l: Ledger,
    after: Ledger,
    env: Env,
    info: MessageInfo,
    token: Option<String>,
    amount: u128,
    res: Result<cosmwasm_std::Response, WrapperError>,
)
    requires
        handled(l, after, env, info, ExecuteMsg::Unwrap { token, amount }, res),
    ensures
        token is Some && slot(l.tokens, token->Some_0@) != Slot::Holds(true) ==> refused_saying(
            res,
            "Invalid Cw20 token address"@,
        ) && after == l,
        token is Some && slot(l.tokens, token->Some_0@) == Slot::Holds(true) && !is_covered(
            l,
            info.sender@,
            amount,
        ) ==> refused_saying(res, "Insufficient cw20 token amount"@) && after == l,
        token is None && l.config is Vacant ==> refused_by_chain(res, StdFault::NotFound) && after
            == l,
        token is None && l.config is Garbled ==> refused_by_chain(
            res,
            StdFault::ParseErr { msg: l.config->Garbled_0 },
        ) && after == l,
        token is None && l.config is Holds && !l.config->Holds_0.is_native_allowed
            ==> refused_saying(
            res,
            "Unwrapping native token is not allowed in this token wrapper"@,
        ) && after == l,
        token is None && l.config is Holds && l.config->Holds_0.is_native_allowed && !is_covered(
            l,
            info.sender@,
            amount,
        ) ==> refused_saying(res, "Insufficient native token balance"@) && after == l,
        ({
            let asked = is_covered(l, info.sender@, amount) && match token {
                Some(t) => slot(l.tokens, t@) == Slot::Holds(true),
                None => l.config is Holds && l.config->Holds_0.is_native_allowed,
            };
            &&& asked && l.issued is Vacant ==> refused_by_chain(res, StdFault::NotFound) && after
                == l
            &&& asked && l.issued is Garbled ==> refused_by_chain(
                res,
                StdFault::ParseErr { msg: l.issued->Garbled_0 },
            ) && after == l
            &&& asked && l.issued is Holds && amount == 0 ==> refused_by_token(
                res,
                TokenFault::InvalidZeroAmount,
            ) && after == l
        }),
{
}

/// What a refused message leaves behind: nothing, unless it is the token that
/// refuses; then the settings, the wrapping list and its history are untouched
/// still, and so is the issued amount, except that wrapping has booked its share.
pub proof fn law_refusal_leaves_the_rest_alone(
    l: Ledger,
    after: Ledger,
    env: Env,
    info: MessageInfo,
    msg: ExecuteMsg,
    res: Result<cosmwasm_std::Response, WrapperError>,
)
    requires
        handled(l, after, env, info, msg, res),
        res is Err,
    ensures
        res->Err_0 !is Token ==> after == l,
        after.addresses == l.addresses,
        after.refused == l.refused,
        after.version == l.version,
        after.config == l.config,
        after.tokens == l.tokens,
        after.historical == l.historical,
        msg !is Wrap && msg !is Receive ==> after.issued == l.issued,
        governs_the_contract(msg) ==> after == l,
{
}

/// Whether a message is one of those by which the contract is governed.
pub open spec fn governs_the_contract(msg: ExecuteMsg) -> bool {
    ||| msg is SetGoverner
    ||| msg is SetNativeAllowed
    ||| msg is UpdateLimit
    ||| msg is SetFee
    ||| msg is SetFeeRecipient
    ||| msg is AddCw20TokenAddr
    ||| msg is RemoveCw20TokenAddr
}

/// Whether `msg` brings `amount` to be wrapped for `who`, and nothing but the token
/// can refuse it.
pub open spec fn comes_to_the_token(
    l: Ledger,
    info: MessageInfo,
    msg: ExecuteMsg,
    who: Seq<char>,
    amount: u128,
    i: int,
) -> bool {
    &&& l.config matches Slot::Holds(c)
    &&& l.issued matches Slot::Holds(issued)
    &&& amount > 0
    &&& issued + amount <= c.wrapping_limit
    &&& match msg {
        ExecuteMsg::Wrap {  } => {
            &&& c.is_native_allowed
            &&& first_of(info.funds@, c.native_token_denom, i)
            &&& info.funds@[i].amount == amount
            &&& info.sender@ == who
        },
        ExecuteMsg::Receive(m) => {
            &&& slot(l.tokens, info.sender@) == Slot::Holds(true)
            &&& m.msg is Ok
            &&& m.amount == amount
            &&& m.sender@ == who
        },
        _ => false,
    }
}

/// On which grounds the token refuses to mint what is wrapped. What the amount is
/// worth is booked as issued by then.
pub proof fn law_minting_refusals(
    l: Ledger,
    after: Ledger,
    env: Env,
    info: MessageInfo,
    msg: ExecuteMsg,
    res: Result<cosmwasm_std::Response, WrapperError>,
    who: Seq<char>,
    amount: u128,
    i: int,
) -> (fee: nat)
    requires
        handled(l, after, env, info, msg, res),
        execute_fits(l, env, info, msg),
        comes_to_the_token(l, info, msg, who, amount, i),
    ensures
        is_fee(fee, amount, l.config->Holds_0.fee_percentage),
        fee <= amount,
        after.issued == Slot::Holds((l.issued->Holds_0 + amount - fee) as u128),
        res is Err ==> res->Err_0 is Token,
        fee == amount ==> refused_by_token(res, TokenFault::InvalidZeroAmount),
        fee < amount ==> match l.token.info {
            Slot::Vacant => refused_by_token(res, TokenFault::Std(StdFault::NotFound)),
            Slot::Garbled(msg) => refused_by_token(
                res,
                TokenFault::Std(StdFault::ParseErr { msg }),
            ),
            Slot::Holds(t) => match t.mint {
                Some(m) if m.0 == env.contract@ => {
                    &&& m.1 is Some && t.total_supply + amount - fee > m.1->Some_0
                        ==> refused_by_token(res, TokenFault::CannotExceedCap)
                    &&& (m.1 is None || t.total_supply + amount - fee <= m.1->Some_0)
                        && !l.addresses.contains(who) ==> refused_by_token(
                        res,
                        TokenFault::Std(l.refused[who]),
                    )
                    &&& (m.1 is None || t.total_supply + amount - fee <= m.1->Some_0)
                        && l.addresses.contains(who) && slot(l.token.balances, who) !is Garbled
                        ==> res is Ok
                },
                _ => refused_by_token(res, TokenFault::Unauthorized),
            },
        },
{
    let c = l.config->Holds_0;
    let j = law_native_coin_is_the_first(info.funds@, c.native_token_denom);
    if msg is Wrap {
        assert(info.funds@[i].denom@ == c.native_token_denom);
        if i < j {
            assert(info.funds@[i].denom@ != c.native_token_denom);
        }
        if j < i {
            assert(info.funds@[j].denom@ != c.native_token_denom);
        }
    }
    law_fee_is_the_share(amount, c.fee_percentage);
    fee_of(amount, c.fee_percentage)
}

/// Who gives, who gets and how much, where a message moves wrapped tokens.
pub open spec fn movement(info: MessageInfo, msg: ExecuteMsg) -> Option<
    (Seq<char>, Seq<char>, u128),
> {
    match msg {
        ExecuteMsg::Transfer { recipient, amount } => Some((info.sender@, recipient@, amount)),
        ExecuteMsg::Send { contract, amount, .. } => Some((info.sender@, contract@, amount)),
        ExecuteMsg::TransferFrom { owner, recipient, amount } => Some((owner@, recipient@, amount)),
        ExecuteMsg::SendFrom { owner, contract, amount, .. } => Some((owner@, contract@, amount)),
        _ => None,
    }
}

/// Who owns the tokens that a message takes on behalf of their owner, and how many.
pub open spec fn on_behalf(msg: ExecuteMsg) -> Option<(Seq<char>, u128)> {
    match msg {
        ExecuteMsg::TransferFrom { owner, amount, .. } => Some((owner@, amount)),
        ExecuteMsg::BurnFrom { owner, amount } => Some((owner@, amount)),
        ExecuteMsg::SendFrom { owner, amount, .. } => Some((owner@, amount)),
        _ => None,
    }
}

/// Whether an allowance has ended.
pub open spec fn has_ended(expires: Expiration, env: Env) -> bool {
    match expires {
        Expiration::AtHeight(height) => env.height >= height,
        Expiration::AtTime(time) => env.time >= time,
        Expiration::Never => false,
    }
}

/// Whoever takes tokens on behalf of their owner spends an allowance, whoever gets
/// them: one is recorded for the spender, it has not ended and covers the amount,
/// and afterwards it is smaller by exactly the amount. No other allowance changes.
pub proof fn law_taking_spends_the_allowance(
    l: Ledger,
    after: Ledger,
    env: Env,
    info: MessageInfo,
    msg: ExecuteMsg,
    res: Result<cosmwasm_std::Response, WrapperError>,
)
    requires
        handled(l, after, env, info, msg, res),
        res is Ok,
        on_behalf(msg) is Some,
    ensures
        ({
            let (owner, amount) = on_behalf(msg)->Some_0;
            &&& slot(l.token.allowances, (owner, info.sender@)) matches Slot::Holds(a)
            &&& !has_ended(a.expires, env)
            &&& amount <= a.allowance
            &&& after.token.allowances == l.token.allowances.insert(
                (owner, info.sender@),
                Ok(
                    AllowanceView {
                        allowance: (a.allowance - amount) as u128,
                        expires: a.expires,
                    },
                ),
            )
        }),
{
}

/// Without such an allowance nothing is taken: the message is refused, and nothing
/// is written.
pub proof fn law_nothing_is_taken_without_an_allowance(
    l: Ledger,
    after: Ledger,
    env: Env,
    info: MessageInfo,
    msg: ExecuteMsg,
    res: Result<cosmwasm_std::Response, WrapperError>,
)
    requires
        handled(l, after, env, info, msg, res),
        on_behalf(msg) is Some,
    ensures
        ({
            let (owner, amount) = on_behalf(msg)->Some_0;
            let named = l.addresses.contains(owner) && match movement(info, msg) {
                Some(m) => l.addresses.contains(m.1),
                None => true,
            };
            &&& !named ==> res is Err && after == l
            &&& match slot(l.token.allowances, (owner, info.sender@)) {
                Slot::Vacant => {
                    &&& res is Err
                    &&& after == l
                    &&& named ==> refused_by_token(res, TokenFault::NoAllowance)
                },
                Slot::Garbled(msg) => {
                    &&& res is Err
                    &&& after == l
                    &&& named ==> refused_by_token(res, TokenFault::Std(StdFault::ParseErr { msg }))
                },
                Slot::Holds(a) => {
                    &&& has_ended(a.expires, env) || amount > a.allowance ==> res is Err && after
                        == l
                    &&& named && has_ended(a.expires, env) ==> refused_by_token(
                        res,
                        TokenFault::Expired,
                    )
                    &&& named && !has_ended(a.expires, env) && amount > a.allowance
                        ==> refused_by_token(
                        res,
                        TokenFault::Std(
                            StdFault::Overflow {
                                left: digits(a.allowance as nat),
                                right: digits(amount as nat),
                            },
                        ),
                    )
                },
            }
        }),
{
}

/// Moving wrapped tokens takes exactly the amount from the one who gives, who holds
/// it, and adds it to the one who gets it. No other balance, no supply, nothing that
/// is issued and no setting changes, and allowances only where tokens are taken on
/// behalf of their owner.
pub proof fn law_moving_moves_the_amount(
    l: Ledger,
    after: Ledger,
    env: Env,
    info: MessageInfo,
    msg: ExecuteMsg,
    res: Result<cosmwasm_std::Response, WrapperError>,
)
    requires
        handled(l, after, env, info, msg, res),
        execute_fits(l, env, info, msg),
        res is Ok,
        movement(info, msg) is Some,
    ensures
        ({
            let (from, to, amount) = movement(info, msg)->Some_0;
            &&& l.addresses.contains(to)
            &&& amount <= l.token.held(from)
            &&& from != to ==> l.token.held(to) + amount <= u128::MAX
            &&& after == (Ledger { token: after.token, ..l })
            &&& after.token.info == l.token.info
            &&& on_behalf(msg) is None ==> after.token.allowances == l.token.allowances
            &&& on_behalf(msg) is None ==> amount > 0
            &&& after.token.balances == if from == to {
                l.token.balances.insert(from, Ok(l.token.held(from)))
            } else {
                l.token.balances.insert(from, Ok((l.token.held(from) - amount) as u128)).insert(
                    to,
                    Ok((l.token.held(to) + amount) as u128),
                )
            }
        }),
{
    let (from, to, amount) = movement(info, msg)->Some_0;
    if from == to {
        assert(after.token.balances =~= l.token.balances.insert(from, Ok(l.token.held(from))));
    }
}

/// What moving wrapped tokens reports, and that sending them calls the contract that
/// gets them, in the name of the sender.
pub proof fn law_moving_replies(
    l: Ledger,
    after: Ledger,
    env: Env,
    info: MessageInfo,
    msg: ExecuteMsg,
    res: Result<cosmwasm_std::Response, WrapperError>,
)
    requires
        handled(l, after, env, info, msg, res),
        res is Ok,
    ensures
        msg matches ExecuteMsg::Transfer { recipient, amount } ==> done(
            res,
            seq![],
            seq![
                ("action"@, "transfer"@),
                ("from"@, info.sender@),
                ("to"@, recipient@),
                ("amount"@, digits(amount as nat)),
            ],
        ),
        msg matches ExecuteMsg::Send { contract, amount, msg } ==> done(
            res,
            seq![
                Outgoing::WasmExecute {
                    contract: contract@,
                    msg: receive_payload(info.sender@, amount, msg@),
                },
            ],
            seq![
                ("action"@, "send"@),
                ("from"@, info.sender@),
                ("to"@, contract@),
                ("amount"@, digits(amount as nat)),
            ],
        ),
        msg matches ExecuteMsg::TransferFrom { owner, recipient, amount } ==> done(
            res,
            seq![],
            seq![
                ("action"@, "transfer_from"@),
                ("from"@, owner@),
                ("to"@, recipient@),
                ("by"@, info.sender@),
                ("amount"@, digits(amount as nat)),
            ],
        ),
        msg matches ExecuteMsg::SendFrom { owner, contract, amount, msg } ==> done(
            res,
            seq![
                Outgoing::WasmExecute {
                    contract: contract@,
                    msg: receive_payload(info.sender@, amount, msg@),
                },
            ],
            seq![
                ("action"@, "send_from"@),
                ("from"@, owner@),
                ("to"@, contract@),
                ("by"@, info.sender@),
                ("amount"@, digits(amount as nat)),
            ],
        ),
{
}

/// Moving wrapped tokens is owed: to the owner for any amount that is held and not
/// zero, and to a spender within the allowance, if the receiver is an accepted
/// address and the balances can be read.
pub proof fn law_moving_is_owed(
    l: Ledger,
    after: Ledger,
    env: Env,
    info: MessageInfo,
    msg: ExecuteMsg,
    res: Result<cosmwasm_std::Response, WrapperError>,
)
    requires
        handled(l, after, env, info, msg, res),
        movement(info, msg) matches Some(m) && {
            &&& l.addresses.contains(m.1)
            &&& slot(l.token.balances, m.0) !is Garbled
            &&& slot(l.token.balances, m.1) !is Garbled
            &&& m.2 <= l.token.held(m.0)
            &&& on_behalf(msg) is None ==> m.2 > 0
            &&& on_behalf(msg) is Some ==> l.addresses.contains(m.0) && may_take(
                l,
                env,
                m.0,
                info.sender@,
                m.2,
            )
        },
    ensures
        res is Ok,
{
}

/// Whether a spender has an allowance that covers `amount` and has not ended.
pub open spec fn may_take(
    l: Ledger,
    env: Env,
    owner: Seq<char>,
    spender: Seq<char>,
    amount: u128,
) -> bool {
    &&& slot(l.token.allowances, (owner, spender)) matches Slot::Holds(a)
    &&& !has_ended(a.expires, env)
    &&& amount <= a.allowance
}

/// On which grounds the token refuses to move what its owner, or a spender within
/// the allowance, has asked it to move.
pub proof fn law_moving_refusals(
    l: Ledger,
    after: Ledger,
    env: Env,
    info: MessageInfo,
    msg: ExecuteMsg,
    res: Result<cosmwasm_std::Response, WrapperError>,
)
    requires
        handled(l, after, env, info, msg, res),
        movement(info, msg) is Some,
    ensures
        ({
            let (from, to, amount) = movement(info, msg)->Some_0;
            let own = on_behalf(msg) is None;
            &&& own && amount == 0 ==> refused_by_token(res, TokenFault::InvalidZeroAmount)
                && after == l
            &&& (!own || amount > 0) && !l.addresses.contains(to) ==> refused_by_token(
                res,
                TokenFault::Std(l.refused[to]),
            ) && after == l
            &&& !own && l.addresses.contains(to) && !l.addresses.contains(from)
                ==> refused_by_token(res, TokenFault::Std(l.refused[from])) && after == l
            &&& own && amount > 0 && l.addresses.contains(to) && slot(l.token.balances, from)
                !is Garbled && amount > l.token.held(from) ==> refused_by_token(
                res,
                TokenFault::Std(
                    StdFault::Overflow {
                        left: digits(l.token.held(from) as nat),
                        right: digits(amount as nat),
                    },
                ),
            ) && after == l
            &&& !own && l.addresses.contains(to) && l.addresses.contains(from) && may_take(
                l,
                env,
                from,
                info.sender@,
                amount,
            ) && slot(l.token.balances, from) !is Garbled && amount > l.token.held(from)
                ==> refused_by_token(
                res,
                TokenFault::Std(
                    StdFault::Overflow {
                        left: digits(l.token.held(from) as nat),
                        right: digits(amount as nat),
                    },
                ),
            )
        }),
{
}

/// Burning takes exactly the amount off the balance and off the total supply, and
/// leaves what is issued, and every other balance, as it is. An owner burns their
/// own tokens, and a spender those of an owner within the allowance.
pub proof fn law_burning_destroys_the_amount(
    l: Ledger,
    after: Ledger,
    env: Env,
    info: MessageInfo,
    msg: ExecuteMsg,
    res: Result<cosmwasm_std::Response, WrapperError>,
)
    requires
        handled(l, after, env, info, msg, res),
        res is Ok,
        msg is Burn || msg is BurnFrom,
    ensures
        ({
            let (who, amount) = match msg {
                ExecuteMsg::Burn { amount } => (info.sender@, amount),
                ExecuteMsg::BurnFrom { owner, amount } => (owner@, amount),
                _ => (info.sender@, 0),
            };
            &&& msg is Burn ==> amount > 0
            &&& msg is BurnFrom ==> l.addresses.contains(who)
            &&& amount <= l.token.held(who)
            &&& l.token.info matches Slot::Holds(t)
            &&& amount <= t.total_supply
            &&& after == (Ledger {
                token: TokenBook {
                    info: Slot::Holds(
                        TokenInfoView { total_supply: (t.total_supply - amount) as u128, ..t },
                    ),
                    balances: l.token.balances.insert(
                        who,
                        Ok((l.token.held(who) - amount) as u128),
                    ),
                    allowances: after.token.allowances,
                },
                ..l
            })
            &&& msg is Burn ==> after.token.allowances == l.token.allowances
        }),
        msg matches ExecuteMsg::Burn { amount } ==> done(
            res,
            seq![],
            seq![
                ("action"@, "burn"@),
                ("from"@, info.sender@),
                ("amount"@, digits(amount as nat)),
            ],
        ),
        msg matches ExecuteMsg::BurnFrom { owner, amount } ==> done(
            res,
            seq![],
            seq![
                ("action"@, "burn_from"@),
                ("from"@, owner@),
                ("by"@, info.sender@),
                ("amount"@, digits(amount as nat)),
            ],
        ),
{
}

/// Burning is owed to whoever holds the amount, if it is not zero, and to a spender
/// within the allowance. A refusal for an amount names what was there.
pub proof fn law_burning_is_owed(
    l: Ledger,
    after: Ledger,
    env: Env,
    info: MessageInfo,
    msg: ExecuteMsg,
    res: Result<cosmwasm_std::Response, WrapperError>,
)
    requires
        handled(l, after, env, info, msg, res),
        msg is Burn || msg is BurnFrom,
        l.token.info is Holds,
    ensures
        ({
            let (who, amount, may) = match msg {
                ExecuteMsg::Burn { amount } => (info.sender@, amount, amount > 0),
                ExecuteMsg::BurnFrom { owner, amount } => (
                    owner@,
                    amount,
                    l.addresses.contains(owner@) && may_take(l, env, owner@, info.sender@, amount),
                ),
                _ => (info.sender@, 0, false),
            };
            let readable = slot(l.token.balances, who) !is Garbled;
            &&& may && readable && amount <= l.token.held(who) && amount
                <= l.token.info->Holds_0.total_supply ==> res is Ok
            &&& may && readable && amount > l.token.held(who) ==> refused_by_token(
                res,
                TokenFault::Std(
                    StdFault::Overflow {
                        left: digits(l.token.held(who) as nat),
                        right: digits(amount as nat),
                    },
                ),
            )
            &&& msg is Burn && amount == 0 ==> refused_by_token(res, TokenFault::InvalidZeroAmount)
                && after == l
            &&& msg is BurnFrom && !l.addresses.contains(who) ==> refused_by_token(
                res,
                TokenFault::Std(l.refused[who]),
            ) && after == l
        }),
{
}

/// Raising an allowance adds exactly the amount to what was allowed, and sets the
/// end if one is given. Nothing else changes, and a refusal writes nothing.
pub proof fn law_raising_an_allowance(
    l: Ledger,
    after: Ledger,
    env: Env,
    info: MessageInfo,
    spender: String,
    amount: u128,
    expires: Option<Expiration>,
    res: Result<cosmwasm_std::Response, WrapperError>,
)
    requires
        handled(
            l,
            after,
            env,
            info,
            ExecuteMsg::IncreaseAllowance { spender, amount, expires },
            res,
        ),
        execute_fits(l, env, info, ExecuteMsg::IncreaseAllowance { spender, amount, expires }),
    ensures
        ({
            let key = (info.sender@, spender@);
            let there = slot(l.token.allowances, key);
            let names = l.addresses.contains(spender@) && spender@ != info.sender@;
            let (allowed, end) = match there {
                Slot::Holds(a) => (a.allowance, a.expires),
                _ => (0, Expiration::Never),
            };
            &&& res is Ok <==> names && there !is Garbled
            &&& res is Err ==> after == l
            &&& !l.addresses.contains(spender@) ==> refused_by_token(
                res,
                TokenFault::Std(l.refused[spender@]),
            )
            &&& l.addresses.contains(spender@) && spender@ == info.sender@ ==> refused_by_token(
                res,
                TokenFault::CannotSetOwnAccount,
            )
            &&& res is Ok ==> {
                &&& allowed + amount <= u128::MAX
                &&& after == (Ledger {
                    token: TokenBook {
                        allowances: l.token.allowances.insert(
                            key,
                            Ok(
                                AllowanceView {
                                    allowance: (allowed + amount) as u128,
                                    expires: match expires {
                                        Some(e) => e,
                                        None => end,
                                    },
                                },
                            ),
                        ),
                        ..l.token
                    },
                    ..l
                })
                &&& done(
                    res,
                    seq![],
                    seq![
                        ("action"@, "increase_allowance"@),
                        ("owner"@, info.sender@),
                        ("spender"@, spender@),
                        ("amount"@, digits(amount as nat)),
                    ],
                )
            }
        }),
{
}

/// Lowering an allowance takes exactly the amount off, and sets the end if one is
/// given, or forgets the allowance if nothing is left of it. Nothing else changes,
/// and a refusal writes nothing.
pub proof fn law_lowering_an_allowance(
    l: Ledger,
    after: Ledger,
    env: Env,
    info: MessageInfo,
    spender: String,
    amount: u128,
    expires: Option<Expiration>,
    res: Result<cosmwasm_std::Response, WrapperError>,
)
    requires
        handled(
            l,
            after,
            env,
            info,
            ExecuteMsg::DecreaseAllowance { spender, amount, expires },
            res,
        ),
    ensures
        ({
            let key = (info.sender@, spender@);
            let there = slot(l.token.allowances, key);
            let names = l.addresses.contains(spender@) && spender@ != info.sender@;
            let a = there->Holds_0;
            &&& res is Ok <==> names && there is Holds
            &&& res is Err ==> after == l
            &&& !l.addresses.contains(spender@) ==> refused_by_token(
                res,
                TokenFault::Std(l.refused[spender@]),
            )
            &&& l.addresses.contains(spender@) && spender@ == info.sender@ ==> refused_by_token(
                res,
                TokenFault::CannotSetOwnAccount,
            )
            &&& names && there is Vacant ==> refused_by_token(
                res,
                TokenFault::Std(StdFault::NotFound),
            )
            &&& res is Ok ==> {
                &&& after == (Ledger { token: after.token, ..l })
                &&& after.token == (TokenBook { allowances: after.token.allowances, ..l.token })
                &&& after.token.allowances == if amount < a.allowance {
                    l.token.allowances.insert(
                        key,
                        Ok(
                            AllowanceView {
                                allowance: (a.allowance - amount) as u128,
                                expires: match expires {
                                    Some(e) => e,
                                    None => a.expires,
                                },
                            },
                        ),
                    )
                } else {
                    l.token.allowances.remove(key)
                }
                &&& done(
                    res,
                    seq![],
                    seq![
                        ("action"@, "decrease_allowance"@),
                        ("owner"@, info.sender@),
                        ("spender"@, spender@),
                        ("amount"@, digits(amount as nat)),
                    ],
                )
            }
        }),
{
}

/// Why a sender may not govern: the settings cannot be loaded, the chain does not
/// accept the sender, or somebody else governs.
pub open spec fn may_not_govern(
    l: Ledger,
    info: MessageInfo,
    res: Result<cosmwasm_std::Response, WrapperError>,
) -> bool {
    match l.config {
        Slot::Vacant => refused_by_chain(res, StdFault::NotFound),
        Slot::Garbled(msg) => refused_by_chain(res, StdFault::ParseErr { msg }),
        Slot::Holds(c) => if !l.addresses.contains(info.sender@) {
            refused_by_chain(res, l.refused[info.sender@])
        } else {
            &&& c.governer != info.sender@
            &&& res matches Err(e)
            &&& e == WrapperError::Unauthorized {  }
        },
    }
}

/// Whether a sender is the governer.
pub open spec fn is_governer(l: Ledger, info: MessageInfo) -> bool {
    &&& l.config matches Slot::Holds(c)
    &&& l.addresses.contains(info.sender@)
    &&& c.governer == info.sender@
}

/// The governer, and nobody else, names a new governer, who must be an accepted
/// address. Nothing else changes.
pub proof fn law_setting_the_governer(
    l: Ledger,
    after: Ledger,
    env: Env,
    info: MessageInfo,
    new_governer: String,
    res: Result<cosmwasm_std::Response, WrapperError>,
)
    requires
        handled(l, after, env, info, ExecuteMsg::SetGoverner { new_governer }, res),
    ensures
        !is_governer(l, info) ==> may_not_govern(l, info, res) && after == l,
        is_governer(l, info) && !l.addresses.contains(new_governer@) ==> refused_by_chain(
            res,
            l.refused[new_governer@],
        ) && after == l,
        is_governer(l, info) && l.addresses.contains(new_governer@) ==> {
            &&& done(
                res,
                seq![],
                seq![("method"@, "set_governer"@), ("new_governer"@, new_governer@)],
            )
            &&& after == (Ledger {
                config: Slot::Holds(
                    ConfigView { governer: new_governer@, ..l.config->Holds_0 },
                ),
                ..l
            })
        },
{
}

/// The governer, and nobody else, allows native tokens with any number but zero,
/// and forbids them with zero. Nothing else changes.
pub proof fn law_allowing_native_tokens(
    l: Ledger,
    after: Ledger,
    env: Env,
    info: MessageInfo,
    is_native_allowed: u32,
    res: Result<cosmwasm_std::Response, WrapperError>,
)
    requires
        handled(l, after, env, info, ExecuteMsg::SetNativeAllowed { is_native_allowed }, res),
    ensures
        !is_governer(l, info) ==> may_not_govern(l, info, res) && after == l,
        is_governer(l, info) ==> {
            &&& done(
                res,
                seq![],
                seq![
                    ("method"@, "set_native_allowed"@),
                    (
                        "is_native_allowed"@,
                        if is_native_allowed == 0 {
                            "false"@
                        } else {
                            "true"@
                        },
                    ),
                ],
            )
            &&& after == (Ledger {
                config: Slot::Holds(
                    ConfigView {
                        is_native_allowed: is_native_allowed > 0,
                        ..l.config->Holds_0
                    },
                ),
                ..l
            })
        },
{
}

/// The governer, and nobody else, sets the wrapping limit to the number that the
/// text gives. A text that gives none is refused before the sender is looked at.
/// Nothing else changes.
pub proof fn law_setting_the_limit(
    l: Ledger,
    after: Ledger,
    env: Env,
    info: MessageInfo,
    new_limit: String,
    res: Result<cosmwasm_std::Response, WrapperError>,
)
    requires
        handled(l, after, env, info, ExecuteMsg::UpdateLimit { new_limit }, res),
    ensures
        ({
            let n = numeral(new_limit@);
            let given = n is Some && n->Some_0 <= u128::MAX;
            &&& !given ==> refused_saying(res, u128_parse_failure(new_limit@)) && after == l
            &&& given && !is_governer(l, info) ==> may_not_govern(l, info, res) && after == l
            &&& given && is_governer(l, info) ==> {
                &&& done(
                    res,
                    seq![],
                    seq![
                        ("method"@, "set_wrapping_limit"@),
                        ("new_limit"@, digits(n->Some_0)),
                    ],
                )
                &&& after == (Ledger {
                    config: Slot::Holds(
                        ConfigView { wrapping_limit: n->Some_0 as u128, ..l.config->Holds_0 },
                    ),
                    ..l
                })
            }
        }),
{
}

/// The governer, and nobody else, sets the fee rate to as many hundredths as the
/// text says, from none to all. Another text is refused before the sender is looked
/// at. Nothing else changes.
pub proof fn law_setting_the_fee(
    l: Ledger,
    after: Ledger,
    env: Env,
    info: MessageInfo,
    new_fee_perc: String,
    res: Result<cosmwasm_std::Response, WrapperError>,
)
    requires
        handled(l, after, env, info, ExecuteMsg::SetFee { new_fee_perc }, res),
    ensures
        ({
            let n = numeral(new_fee_perc@);
            let p = n->Some_0;
            &&& n is None || p > u64::MAX ==> refused_saying(
                res,
                u64_parse_failure(new_fee_perc@),
            ) && after == l
            &&& n is Some && 100 < p <= u64::MAX ==> refused_saying(
                res,
                "Percentage should be in range [0, 100]"@,
            ) && after == l
            &&& n is Some && p <= 100 && !is_governer(l, info) ==> may_not_govern(l, info, res)
                && after == l
            &&& n is Some && p <= 100 && is_governer(l, info) ==> {
                &&& done(
                    res,
                    seq![],
                    seq![
                        ("method"@, "set_fee"@),
                        ("new_fee_perc"@, decimal_text(p * 10_000_000_000_000_000)),
                    ],
                )
                &&& after == (Ledger {
                    config: Slot::Holds(
                        ConfigView {
                            fee_percentage: (p * 10_000_000_000_000_000) as u128,
                            ..l.config->Holds_0
                        },
                    ),
                    ..l
                })
            }
        }),
{
}

/// The governer, and nobody else, names who receives the fees. An address that the
/// chain does not accept is refused before the sender is looked at. Nothing else
/// changes.
pub proof fn law_setting_the_fee_recipient(
    l: Ledger,
    after: Ledger,
    env: Env,
    info: MessageInfo,
    new_recipient: String,
    res: Result<cosmwasm_std::Response, WrapperError>,
)
    requires
        handled(l, after, env, info, ExecuteMsg::SetFeeRecipient { new_recipient }, res),
    ensures
        !l.addresses.contains(new_recipient@) ==> refused_by_chain(res, l.refused[new_recipient@])
            && after == l,
        l.addresses.contains(new_recipient@) && !is_governer(l, info) ==> may_not_govern(
            l,
            info,
            res,
        ) && after == l,
        l.addresses.contains(new_recipient@) && is_governer(l, info) ==> {
            &&& done(
                res,
                seq![],
                seq![("method"@, "set_fee_recipient"@), ("new_recipient"@, new_recipient@)],
            )
            &&& after == (Ledger {
                config: Slot::Holds(
                    ConfigView { fee_recipient: new_recipient@, ..l.config->Holds_0 },
                ),
                ..l
            })
        },
{
}

/// The governer, and nobody else, adds a token to the wrapping list, with the nonce
/// that follows the last, if it is an accepted address that never was on the list.
/// It is listed and on record then, the nonce is the last one, and nothing else
/// changes.
pub proof fn law_adding_a_token(
    l: Ledger,
    after: Ledger,
    env: Env,
    info: MessageInfo,
    token: String,
    nonce: u64,
    res: Result<cosmwasm_std::Response, WrapperError>,
)
    requires
        handled(l, after, env, info, ExecuteMsg::AddCw20TokenAddr { token, nonce }, res),
    ensures
        ({
            let named = l.addresses.contains(token@);
            let fresh = !l.tokens.contains_key(token@);
            let next = nonce == l.config->Holds_0.proposal_nonce + 1;
            &&& !named ==> refused_by_chain(res, l.refused[token@]) && after == l
            &&& named && !fresh ==> refused_saying(res, "Token must not be valid"@) && after == l
            &&& named && fresh && !is_governer(l, info) ==> may_not_govern(l, info, res) && after
                == l
            &&& named && fresh && is_governer(l, info) && !next ==> refused_saying(
                res,
                "Nonce must increment by 1"@,
            ) && after == l
            &&& named && fresh && is_governer(l, info) && next ==> {
                &&& done(res, seq![], seq![("method"@, "add_token"@), ("token"@, token@)])
                &&& after == (Ledger {
                    tokens: l.tokens.insert(token@, Ok(true)),
                    historical: l.historical.insert(token@, Ok(true)),
                    config: Slot::Holds(ConfigView { proposal_nonce: nonce, ..l.config->Holds_0 }),
                    ..l
                })
            }
        }),
{
}

/// The governer, and nobody else, takes a listed token off the wrapping list, with
/// the nonce that follows the last. It is not listed then but stays on record, the
/// nonce is the last one, and nothing else changes.
pub proof fn law_removing_a_token(
    l: Ledger,
    after: Ledger,
    env: Env,
    info: MessageInfo,
    token: String,
    nonce: u64,
    res: Result<cosmwasm_std::Response, WrapperError>,
)
    requires
        handled(l, after, env, info, ExecuteMsg::RemoveCw20TokenAddr { token, nonce }, res),
    ensures
        ({
            let named = l.addresses.contains(token@);
            let flag = slot(l.tokens, token@);
            let next = nonce == l.config->Holds_0.proposal_nonce + 1;
            &&& !named ==> refused_by_chain(res, l.refused[token@]) && after == l
            &&& named && flag !is Holds ==> {
                &&& res matches Err(e)
                &&& e == WrapperError::NotInitialized
                &&& after == l
            }
            &&& named && flag == Slot::Holds(false) ==> refused_saying(res, "Token must be valid"@)
                && after == l
            &&& named && flag == Slot::Holds(true) && !is_governer(l, info) ==> may_not_govern(
                l,
                info,
                res,
            ) && after == l
            &&& named && flag == Slot::Holds(true) && is_governer(l, info) && !next
                ==> refused_saying(res, "Nonce must increment by 1"@) && after == l
            &&& named && flag == Slot::Holds(true) && is_governer(l, info) && next ==> {
                &&& done(res, seq![], seq![("method"@, "remove_token"@), ("token"@, token@)])
                &&& after == (Ledger {
                    tokens: l.tokens.insert(token@, Ok(false)),
                    config: Slot::Holds(ConfigView { proposal_nonce: nonce, ..l.config->Holds_0 }),
                    ..l
                })
            }
        }),
{
}

/// Setting the contract up is refused for an address that the chain does not accept,
/// the governer's first, and then for a number that is none or too large, the fee's
/// first; else it is owed.
pub proof fn law_setting_up_is_owed(
    l: Ledger,
    after: Ledger,
    env: Env,
    info: MessageInfo,
    msg: InstantiateMsg,
    res: Result<cosmwasm_std::Response, WrapperError>,
)
    requires
        set_up(l, after, env, info, msg, res),
    ensures
        ({
            let governer = msg.governer is None || l.addresses.contains(msg.governer->Some_0@);
            let recipient = l.addresses.contains(msg.fee_recipient@);
            let p = numeral(msg.fee_percentage@);
            let n = numeral(msg.wrapping_limit@);
            let fee = p is Some && p->Some_0 <= 100;
            let limit = n is Some && n->Some_0 <= u128::MAX;
            &&& !governer ==> refused_by_chain(res, l.refused[msg.governer->Some_0@])
            &&& governer && !recipient ==> refused_by_chain(res, l.refused[msg.fee_recipient@])
            &&& governer && recipient && p is Some && 100 < p->Some_0 <= u64::MAX
                ==> refused_saying(res, "Percentage should be in range [0, 100]"@)
            &&& governer && recipient && (p is None || p->Some_0 > u64::MAX) ==> refused_saying(
                res,
                u64_parse_failure(msg.fee_percentage@),
            )
            &&& governer && recipient && fee && !limit ==> refused_saying(
                res,
                u128_parse_failure(msg.wrapping_limit@),
            )
            &&& governer && recipient && fee && limit ==> done(res, seq![], seq![])
        }),
{
}

/// A contract that was set up holds what the message gave: the settings, with the
/// sender as the governer where none is named, and a token of the name, the symbol
/// and the decimals, without a supply, that this contract alone mints without a cap.
/// Nothing is issued. The wrapping list, balances and allowances are as they were.
pub proof fn law_setting_up_stores_the_message(
    l: Ledger,
    after: Ledger,
    env: Env,
    info: MessageInfo,
    msg: InstantiateMsg,
    res: Result<cosmwasm_std::Response, WrapperError>,
)
    requires
        set_up(l, after, env, info, msg, res),
        res is Ok,
    ensures
        numeral(msg.fee_percentage@) is Some,
        numeral(msg.fee_percentage@)->Some_0 <= 100,
        numeral(msg.wrapping_limit@) is Some,
        numeral(msg.wrapping_limit@)->Some_0 <= u128::MAX,
        after == (Ledger {
            version: Slot::Holds(("crates.io:cosmwasm-tokenwrapper"@, "0.1.0"@)),
            config: Slot::Holds(
                ConfigView {
                    governer: match msg.governer {
                        Some(v) => v@,
                        None => info.sender@,
                    },
                    fee_recipient: msg.fee_recipient@,
                    fee_percentage: (numeral(msg.fee_percentage@)->Some_0
                        * 10_000_000_000_000_000) as u128,
                    native_token_denom: msg.native_token_denom@,
                    is_native_allowed: msg.is_native_allowed > 0,
                    wrapping_limit: numeral(msg.wrapping_limit@)->Some_0 as u128,
                    proposal_nonce: 0,
                },
            ),
            issued: Slot::Holds(0),
            token: TokenBook {
                info: Slot::Holds(
                    TokenInfoView {
                        name: msg.name@,
                        symbol: msg.symbol@,
                        decimals: msg.decimals,
                        total_supply: 0,
                        mint: Some((env.contract@, None)),
                    },
                ),
                ..l.token
            },
            ..l
        }),
{
}

/// After the contract was set up the token query shows the name, the symbol and the
/// decimals that the message gave and a total supply of zero, and the settings query
/// shows the settings that it gave.
pub proof fn law_queries_show_the_set_up(
    l: Ledger,
    after: Ledger,
    env: Env,
    info: MessageInfo,
    msg: InstantiateMsg,
    res: Result<cosmwasm_std::Response, WrapperError>,
    token: Result<QueryResponse, WrapperError>,
    settings: Result<QueryResponse, WrapperError>,
)
    requires
        set_up(l, after, env, info, msg, res),
        res is Ok,
        answered(after, QueryMsg::TokenInfo {  }, token),
        answered(after, QueryMsg::Config {  }, settings),
    ensures
        token matches Ok(QueryResponse::TokenInfo(t)) && {
            &&& t.name@ == msg.name@
            &&& t.symbol@ == msg.symbol@
            &&& t.decimals == msg.decimals
            &&& t.total_supply == 0
        },
        settings matches Ok(QueryResponse::Config(c)) && {
            &&& c.governer@ == match msg.governer {
                Some(v) => v@,
                None => info.sender@,
            }
            &&& c.native_token_denom@ == msg.native_token_denom@
            &&& c.fee_recipient@ == msg.fee_recipient@
            &&& c.fee_percentage@ == decimal_text(
                numeral(msg.fee_percentage@)->Some_0 * 10_000_000_000_000_000,
            )
            &&& c.is_native_allowed@ == if msg.is_native_allowed == 0 {
                "false"@
            } else {
                "true"@
            }
            &&& c.wrapping_limit@ == digits(numeral(msg.wrapping_limit@)->Some_0)
            &&& c.proposal_nonce@ == digits(0)
        },
{
}

/// A set-up that is refused has registered the contract and its token by then, and
/// leaves the settings as they were.
pub proof fn law_refused_set_up_stores_no_settings(
    l: Ledger,
    after: Ledger,
    env: Env,
    info: MessageInfo,
    msg: InstantiateMsg,
    res: Result<cosmwasm_std::Response, WrapperError>,
)
    requires
        set_up(l, after, env, info, msg, res),
        res is Err,
    ensures
        after == (Ledger {
            version: Slot::Holds(("crates.io:cosmwasm-tokenwrapper"@, "0.1.0"@)),
            issued: Slot::Holds(0),
            token: TokenBook {
                info: Slot::Holds(
                    TokenInfoView {
                        name: msg.name@,
                        symbol: msg.symbol@,
                        decimals: msg.decimals,
                        total_supply: 0,
                        mint: Some((env.contract@, None)),
                    },
                ),
                ..l.token
            },
            ..l
        }),
{
}

/// A query that is refused with an error of the chain.
pub open spec fn query_refused(
    res: Result<QueryResponse, WrapperError>,
    fault: StdFault,
) -> bool {
    res matches Err(WrapperError::Std(e)) && std_fault(e) == fault
}

/// A query for something that cannot be loaded is refused for that.
pub open spec fn cannot_be_loaded<T>(
    there: Slot<T>,
    res: Result<QueryResponse, WrapperError>,
) -> bool {
    match there {
        Slot::Vacant => query_refused(res, StdFault::NotFound),
        Slot::Garbled(msg) => query_refused(res, StdFault::ParseErr { msg }),
        Slot::Holds(_) => true,
    }
}

/// The settings query shows each of the settings under its own name.
pub proof fn law_settings_query(l: Ledger, res: Result<QueryResponse, WrapperError>)
    requires
        answered(l, QueryMsg::Config {  }, res),
    ensures
        cannot_be_loaded(l.config, res),
        l.config matches Slot::Holds(s) ==> (res matches Ok(QueryResponse::Config(c)) && {
            &&& c.governer@ == s.governer
            &&& c.native_token_denom@ == s.native_token_denom
            &&& c.fee_recipient@ == s.fee_recipient
            &&& c.fee_percentage@ == decimal_text(s.fee_percentage as nat)
            &&& c.is_native_allowed@ == if s.is_native_allowed {
                "true"@
            } else {
                "false"@
            }
            &&& c.wrapping_limit@ == digits(s.wrapping_limit as nat)
            &&& c.proposal_nonce@ == digits(s.proposal_nonce as nat)
        }),
{
}

/// The fee query shows the amount that was asked about and its fee, which is the
/// share that the rate says, rounded down. What is no amount is refused, once the
/// settings are there.
pub proof fn law_fee_query(
    l: Ledger,
    amount_to_wrap: String,
    res: Result<QueryResponse, WrapperError>,
) -> (fee: nat)
    requires
        answered(l, QueryMsg::FeeFromAmount { amount_to_wrap }, res),
    ensures
        cannot_be_loaded(l.config, res),
        l.config matches Slot::Holds(s) ==> {
            let n = numeral(amount_to_wrap@);
            if n is Some && n->Some_0 <= u128::MAX {
                &&& is_fee(fee, n->Some_0 as u128, s.fee_percentage)
                &&& res matches Ok(QueryResponse::FeeFromAmount(r))
                &&& r.amount_to_wrap@ == digits(n->Some_0)
                &&& r.fee_amt@ == digits(fee)
            } else {
                res matches Err(WrapperError::Generic(t)) && t@ == u128_parse_failure(
                    amount_to_wrap@,
                )
            }
        },
{
    let amount = numeral(amount_to_wrap@)->Some_0 as u128;
    law_fee_is_the_share(amount, l.config->Holds_0.fee_percentage);
    fee_of(amount, l.config->Holds_0.fee_percentage)
}

/// The amount query shows the target that was asked about and an amount of which,
/// once its fee is paid, exactly the target is left; the next larger amount is too
/// large for the rate. What is no amount is refused, once the settings are there.
pub proof fn law_amount_query(
    l: Ledger,
    target_amount: String,
    res: Result<QueryResponse, WrapperError>,
) -> (r: (nat, nat))
    requires
        query_fits(l, QueryMsg::GetAmountToWrap { target_amount }),
        answered(l, QueryMsg::GetAmountToWrap { target_amount }, res),
    ensures
        cannot_be_loaded(l.config, res),
        l.config matches Slot::Holds(s) ==> {
            let n = numeral(target_amount@);
            let (gross, fee) = r;
            if n is Some && n->Some_0 <= u128::MAX {
                &&& gross <= u128::MAX
                &&& is_fee(fee, gross as u128, s.fee_percentage)
                &&& gross - fee == n->Some_0
                &&& n->Some_0 * 1_000_000_000_000_000_000 < (gross + 1) * (1_000_000_000_000_000_000
                    - s.fee_percentage)
                &&& res matches Ok(QueryResponse::GetAmountToWrap(a))
                &&& a.target_amount@ == digits(n->Some_0)
                &&& a.amount_to_wrap@ == digits(gross)
            } else {
                res matches Err(WrapperError::Generic(t)) && t@ == u128_parse_failure(
                    target_amount@,
                )
            }
        },
{
    let n = numeral(target_amount@);
    let rate = l.config->Holds_0.fee_percentage;
    let target = n->Some_0 as u128;
    let gross = gross_of(target, rate);
    if l.config is Holds && n is Some && n->Some_0 <= u128::MAX {
        law_amount_to_wrap_leaves_target(target, rate);
        law_gross_is_the_largest(target, rate);
        law_fee_is_the_share(gross as u128, rate);
    }
    (gross, fee_of(gross as u128, rate))
}

/// The token, balance and allowance queries show what is recorded: of an account
/// without a balance nothing, and of a spender without an allowance nothing, for
/// ever. Addresses that the chain does not accept are refused, in their order.
pub proof fn law_token_queries(
    l: Ledger,
    address: String,
    owner: String,
    spender: String,
    token: Result<QueryResponse, WrapperError>,
    balance: Result<QueryResponse, WrapperError>,
    allowance: Result<QueryResponse, WrapperError>,
)
    requires
        answered(l, QueryMsg::TokenInfo {  }, token),
        answered(l, QueryMsg::Balance { address }, balance),
        answered(l, QueryMsg::Allowance { owner, spender }, allowance),
    ensures
        cannot_be_loaded(l.token.info, token),
        l.token.info matches Slot::Holds(t) ==> (token matches Ok(QueryResponse::TokenInfo(r)) && {
            &&& r.name@ == t.name
            &&& r.symbol@ == t.symbol
            &&& r.decimals == t.decimals
            &&& r.total_supply == t.total_supply
        }),
        if !l.addresses.contains(address@) {
            query_refused(balance, l.refused[address@])
        } else {
            match slot(l.token.balances, address@) {
                Slot::Vacant => balance == Ok::<QueryResponse, WrapperError>(
                    QueryResponse::Balance { balance: 0 },
                ),
                Slot::Garbled(msg) => query_refused(balance, StdFault::ParseErr { msg }),
                Slot::Holds(v) => balance == Ok::<QueryResponse, WrapperError>(
                    QueryResponse::Balance { balance: v },
                ),
            }
        },
        if !l.addresses.contains(owner@) {
            query_refused(allowance, l.refused[owner@])
        } else if !l.addresses.contains(spender@) {
            query_refused(allowance, l.refused[spender@])
        } else {
            match slot(l.token.allowances, (owner@, spender@)) {
                Slot::Vacant => {
                    &&& allowance matches Ok(QueryResponse::Allowance(a))
                    &&& a.allowance == 0
                    &&& a.expires == Expiration::Never
                },
                Slot::Garbled(msg) => query_refused(allowance, StdFault::ParseErr { msg }),
                Slot::Holds(v) => {
                    &&& allowance matches Ok(QueryResponse::Allowance(a))
                    &&& a.allowance == v.allowance
                    &&& a.expires == v.expires
                },
            }
        },
{
}

/// A text of decimal digits, with or without a plus sign, is read as the number that
/// it stands for, and nothing else is: an amount that fits, or a percentage from 0 to
/// 100, which makes as many hundredths of the whole.
pub proof fn law_numbers_are_read_as_written(text: Seq<char>)
    ensures
        amount_of(text) matches Ok(v) ==> numeral(text) == Some(v as nat),
        numeral(text) matches Some(n) ==> (n <= u128::MAX <==> amount_of(text) is Ok),
        numeral(text) is None ==> amount_of(text) is Err,
        percentage(text) matches Ok(p) ==> numeral(text) == Some(p as nat) && p <= 100,
        numeral(text) matches Some(n) ==> (n <= 100 <==> percentage(text) is Ok),
        numeral(text) is None ==> percentage(text) is Err,
        forall|p: nat| #[trigger] percent(p) * 100 == p * 1_000_000_000_000_000_000,
{
}

/// Whether two numbers add up to more than fits.
pub open spec fn too_large(a: u128, b: u128) -> bool {
    a + b > u128::MAX
}

/// A message is left without an answer only where a number or a storage key would
/// not fit: a sum that is really formed is too large, an amount that is really taken
/// off is larger than what is there, the nonces are used up, or the fee rate is
/// above the whole.
pub proof fn law_only_what_does_not_fit_is_left_unanswered(
    l: Ledger,
    env: Env,
    info: MessageInfo,
    msg: ExecuteMsg,
    after: Ledger,
    res: Option<Result<cosmwasm_std::Response, WrapperError>>,
)
    requires
        attempted(l, after, env, info, msg, res),
        res is None,
    ensures
        after == l,
        match msg {
            ExecuteMsg::Wrap {  } => l.config matches Slot::Holds(c) && (c.fee_percentage
                > 1_000_000_000_000_000_000 || exists|i: int|
                #![trigger info.funds@[i]]
                0 <= i < info.funds@.len() && (too_large(
                    l.token.total_supply(),
                    info.funds@[i].amount,
                ) || too_large(l.token.held(info.sender@), info.funds@[i].amount))),
            ExecuteMsg::Receive(m) => l.config matches Slot::Holds(c) && (c.fee_percentage
                > 1_000_000_000_000_000_000 || too_large(l.token.total_supply(), m.amount)
                || too_large(l.token.held(m.sender@), m.amount)),
            ExecuteMsg::Unwrap { amount, .. } => l.issued matches Slot::Holds(issued) && issued
                < amount <= l.token.held(info.sender@),
            ExecuteMsg::AddCw20TokenAddr { .. } => is_governer(l, info)
                && l.config->Holds_0.proposal_nonce == u64::MAX,
            ExecuteMsg::RemoveCw20TokenAddr { .. } => is_governer(l, info)
                && l.config->Holds_0.proposal_nonce == u64::MAX,
            ExecuteMsg::Transfer { recipient, amount } => recipient@ != info.sender@ && amount
                <= l.token.held(info.sender@) && too_large(l.token.held(recipient@), amount),
            ExecuteMsg::Send { contract, amount, .. } => contract@ != info.sender@ && amount
                <= l.token.held(info.sender@) && too_large(l.token.held(contract@), amount),
            ExecuteMsg::IncreaseAllowance { spender, amount, .. } => is_too_long(info.sender@)
                || (slot(l.token.allowances, (info.sender@, spender@)) matches Slot::Holds(a)
                && too_large(a.allowance, amount)),
            ExecuteMsg::DecreaseAllowance { .. } => is_too_long(info.sender@),
            ExecuteMsg::TransferFrom { owner, recipient, amount } => is_too_long(owner@) || (
            recipient@ != owner@ && may_take(l, env, owner@, info.sender@, amount) && too_large(
                l.token.held(recipient@),
                amount,
            )),
            ExecuteMsg::BurnFrom { owner, .. } => is_too_long(owner@),
            ExecuteMsg::SendFrom { owner, contract, amount, .. } => is_too_long(owner@) || (
            contract@ != owner@ && may_take(l, env, owner@, info.sender@, amount) && too_large(
                l.token.held(contract@),
                amount,
            )),
            _ => false,
        },
{
    match msg {
        ExecuteMsg::Wrap {  } => {
            let c = l.config->Holds_0;
            let i = law_native_coin_is_the_first(info.funds@, c.native_token_denom);
            law_fee_is_the_share(info.funds@[i].amount, c.fee_percentage);
        },
        ExecuteMsg::Receive(m) => {
            law_fee_is_the_share(m.amount, l.config->Holds_0.fee_percentage);
        },
        _ => {},
    }
}

/// Whether an address is too long for a storage key: its length does not fit into
/// two bytes.
pub open spec fn is_too_long(address: Seq<char>) -> bool {
    vstd::utf8::encode_utf8(address).len() >= 0x10000
}

/// A query is left without an answer only where a number or a storage key would not
/// fit: a fee or an amount to send that is too large, an amount for a rate that
/// leaves nothing, or an owner's address that is too long.
pub proof fn law_only_queries_that_do_not_fit_are_left_unanswered(
    l: Ledger,
    msg: QueryMsg,
    res: Option<Result<QueryResponse, WrapperError>>,
)
    requires
        query_attempted(l, msg, res),
        res is None,
    ensures
        match msg {
            QueryMsg::FeeFromAmount { amount_to_wrap } => l.config matches Slot::Holds(c)
                && c.fee_percentage > 1_000_000_000_000_000_000,
            QueryMsg::GetAmountToWrap { target_amount } => {
                &&& l.config matches Slot::Holds(c)
                &&& c.fee_percentage >= 1_000_000_000_000_000_000 || {
                    &&& numeral(target_amount@) matches Some(n)
                    &&& n * 1_000_000_000_000_000_000 > u128::MAX * (1_000_000_000_000_000_000
                        - c.fee_percentage)
                }
            },
            QueryMsg::Allowance { owner, .. } => is_too_long(owner@),
            _ => false,
        },
{
    match msg {
        QueryMsg::FeeFromAmount { amount_to_wrap } => {
            law_fee_is_the_share(
                numeral(amount_to_wrap@)->Some_0 as u128,
                l.config->Holds_0.fee_percentage,
            );
        },
        QueryMsg::GetAmountToWrap { target_amount } => {
            let rate = l.config->Holds_0.fee_percentage;
            let target = numeral(target_amount@)->Some_0 as u128;
            if rate < 1_000_000_000_000_000_000 {
                law_gross_is_the_largest(target, rate);
                let g = gross_of(target, rate) as int;
                let net = 1_000_000_000_000_000_000 - rate;
                assert(u128::MAX * net < g * net) by (nonlinear_arith)
                    requires
                        g > u128::MAX,
                        net > 0,
                ;
            }
        },
        _ => {},
    }
}

/// What the tests on addresses and amounts say: a token is listed where a raised flag
/// is stored for it; an amount can be wrapped where, with what is issued, it is not
/// above the limit; and it can be unwrapped by an accepted address that holds it.
pub proof fn law_address_and_amount_tests(l: Ledger, who: Seq<char>, amount: u128)
    ensures
        l.is_listed(who) <==> l.tokens.contains_key(who) && l.tokens[who] == Ok::<bool, Seq<char>>(
            true,
        ),
        l.within_limit(amount) <==> l.config is Holds && l.issued is Holds && l.issued->Holds_0
            + amount <= l.config->Holds_0.wrapping_limit,
        l.holds_enough(who, amount) <==> is_covered(l, who, amount),
{
}

/// Where an answer comes, it is the one that `execute` or `query` gives.
pub proof fn law_attempts_answer_as_promised(
    l: Ledger,
    after: Ledger,
    env: Env,
    info: MessageInfo,
    msg: ExecuteMsg,
    res: Option<Result<cosmwasm_std::Response, WrapperError>>,
    ask: QueryMsg,
    answer: Option<Result<QueryResponse, WrapperError>>,
)
    requires
        attempted(l, after, env, info, msg, res),
        query_attempted(l, ask, answer),
    ensures
        res matches Some(r) ==> handled(l, after, env, info, msg, r),
        answer matches Some(r) ==> answered(l, ask, r),
{
}

} // verus!
