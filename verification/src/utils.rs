//! What wrapping costs, and whether an amount can be wrapped or unwrapped.
use crate::msg::MessageInfo;
use crate::state::{
    ledger_seen, load_config, load_supply, load_token, slot, Deps, Ledger, Slot,
};
use crate::text::DECIMAL_ONE;
use crate::token::query_balance;
use vstd::arithmetic::div_mod::lemma_fundamental_div_mod;
use vstd::pervasive::unreached;
use vstd::prelude::*;

verus! {

/// `amount * numerator / denominator`, rounded down.
pub open spec fn ratio_of(amount: nat, numerator: nat, denominator: nat) -> nat {
    amount * numerator / denominator
}

/// The part of `amount` that is kept as the fee. `fee_perc` is the fee rate in
/// atomic units, of which `DECIMAL_ONE` make the whole.
pub open spec fn fee_of(amount: u128, fee_perc: u128) -> nat {
    ratio_of(amount as nat, fee_perc as nat, DECIMAL_ONE as nat)
}

/// The amount to send so that `target` is left once the fee is paid. It is
/// meant for a rate below the whole.
pub open spec fn gross_of(target: u128, fee_perc: u128) -> nat
    recommends
        fee_perc < DECIMAL_ONE,
{
    ratio_of(target as nat, DECIMAL_ONE as nat, (DECIMAL_ONE - fee_perc) as nat)
}

/// `cosmwasm_std::Uint128::checked_multiply_ratio`: the product is taken in 256
/// bits and the quotient rounded down; it fails where the denominator is zero
/// or the quotient does not fit.
#[verifier::external_body]
pub(crate) fn multiply_ratio(
    amount: u128,
    numerator: u128,
    denominator: u128,
) -> (res: Option<u128>)
    ensures
        match res {
            Some(v) => denominator > 0 && v == ratio_of(
                amount as nat,
                numerator as nat,
                denominator as nat,
            ),
            None => denominator == 0 || ratio_of(
                amount as nat,
                numerator as nat,
                denominator as nat,
            ) > u128::MAX,
        },
{
    let amount = cosmwasm_std::Uint128::new(amount);
    amount.checked_multiply_ratio(numerator, denominator).ok().map(|v| v.u128())
}

/// The fee for wrapping `amount_to_wrap`.
pub fn get_fee_from_amount(amount_to_wrap: u128, fee_perc: u128) -> (fee: u128)
    requires
        fee_of(amount_to_wrap, fee_perc) <= u128::MAX,
    ensures
        fee == fee_of(amount_to_wrap, fee_perc),
{
    match multiply_ratio(amount_to_wrap, fee_perc, DECIMAL_ONE) {
        Some(fee) => fee,
        None => unreached(),
    }
}

/// The amount that has to be sent so that `target_amount` gets minted.
pub fn get_amount_to_wrap(target_amount: u128, fee_perc: u128) -> (amount: u128)
    requires
        fee_perc < DECIMAL_ONE,
        gross_of(target_amount, fee_perc) <= u128::MAX,
    ensures
        amount == gross_of(target_amount, fee_perc),
{
    match multiply_ratio(target_amount, DECIMAL_ONE, DECIMAL_ONE - fee_perc) {
        Some(amount) => amount,
        None => unreached(),
    }
}

impl Ledger {
    /// Whether a cw20 token is on the wrapping list.
    pub open spec fn is_listed(self, token: Seq<char>) -> bool {
        slot(self.tokens, token) == Slot::Holds(true)
    }

    /// Whether `amount` more stays within the wrapping limit.
    pub open spec fn within_limit(self, amount: u128) -> bool {
        &&& self.config matches Slot::Holds(c)
        &&& self.issued matches Slot::Holds(issued)
        &&& issued + amount <= c.wrapping_limit
    }

    /// Whether an account holds at least `amount` of the wrapped token.
    pub open spec fn holds_enough(self, who: Seq<char>, amount: u128) -> bool {
        self.balance_fault(who) is None && amount <= self.token.held(who)
    }
}

/// Whether the cw20 token can be wrapped and unwrapped.
pub fn is_valid_address(deps: &Deps<'_>, token_address: &str) -> (b: bool)
    ensures
        b == ledger_seen(*deps).is_listed(token_address@),
{
    match load_token(deps, token_address) {
        Ok(listed) => listed,
        Err(_) => false,
    }
}

/// Whether `amount` can be wrapped without going over the limit.
pub fn is_valid_wrap_amount(deps: &Deps<'_>, amount: u128) -> (b: bool)
    ensures
        b == ledger_seen(*deps).within_limit(amount),
{
    match (load_config(deps), load_supply(deps)) {
        (Ok(config), Ok(supply)) => match supply.issued.checked_add(amount) {
            Some(total) => total <= config.wrapping_limit,
            None => false,
        },
        _ => false,
    }
}

/// Whether the sender holds the `amount` of the wrapped token that is to be
/// unwrapped.
pub fn is_valid_unwrap_amount(deps: &Deps<'_>, info: &MessageInfo, amount: u128) -> (b: bool)
    ensures
        b == ledger_seen(*deps).holds_enough(info.sender@, amount),
{
    match query_balance(deps, info.sender.clone()) {
        Ok(balance) => amount <= balance,
        Err(_) => false,
    }
}

/// The fee is never more than the amount, as long as the rate is not more than
/// the whole.
pub proof fn law_fee_within_amount(amount: u128, fee_perc: u128)
    requires
        fee_perc <= DECIMAL_ONE,
    ensures
        fee_of(amount, fee_perc) <= amount,
{
    let a = amount as int;
    let f = fee_perc as int;
    let one = DECIMAL_ONE as int;
    assert(a * f <= a * one) by (nonlinear_arith)
        requires
            0 <= a,
            0 <= f <= one,
    ;
    assert(a * f / one <= a) by (nonlinear_arith)
        requires
            a * f <= a * one,
            one > 0,
    ;
}

/// Sending the amount that `get_amount_to_wrap` names leaves exactly the target
/// once the fee is paid.
pub proof fn law_amount_to_wrap_leaves_target(target: u128, fee_perc: u128)
    requires
        fee_perc < DECIMAL_ONE,
        gross_of(target, fee_perc) <= u128::MAX,
    ensures
        gross_of(target, fee_perc) - fee_of(gross_of(target, fee_perc) as u128, fee_perc) == target,
{
    let t = target as int;
    let f = fee_perc as int;
    let one = DECIMAL_ONE as int;
    let net = one - f;
    let a = gross_of(target, fee_perc) as int;
    let fee = a * f / one;
    lemma_fundamental_div_mod(t * one, net);
    lemma_fundamental_div_mod(a * f, one);
    assert(0 <= (t * one) % net < net) by (nonlinear_arith)
        requires
            net > 0,
    ;
    assert(0 <= (a * f) % one < one) by (nonlinear_arith)
        requires
            one > 0,
    ;
    // net * a <= t * one < net * a + net, and one * fee <= a * f < one * fee + one
    assert(net * a == one * a - a * f) by (nonlinear_arith)
        requires
            net == one - f,
    ;
    assert(one * (a - fee) == one * a - one * fee) by (nonlinear_arith);
    assert(t * one == one * t) by (nonlinear_arith);
    assert(a - fee == t) by (nonlinear_arith)
        requires
            one > 0,
            one * (a - fee) - one < one * t,
            one * t < one * (a - fee) + one,
    ;
}

} // verus!
