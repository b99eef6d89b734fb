//! What holds of the contract as a whole.
use crate::contract::{
    effect, execute_fits, leavings, query_fits, query_refusal, refusal, reply, shows,
};
use crate::error::Refusal;
use crate::governance::{
    amount_of, initial_config, initial_governer, instantiate_refusal, percent, percentage, registered,
};
use crate::msg::{
    Coin, ConfigResponse, Cw20ReceiveMsg, Env, ExecuteMsg, Expiration, FeeFromAmountResponse,
    InstantiateMsg, MessageInfo, QueryMsg, QueryResponse,
};
use crate::state::{slot, Ledger, Slot, TokenBook};
use crate::reply::{transfer_payload, Outgoing};
use crate::text::{
    decimal_text, digits, flag_text, law_number_text_round_trip, numeral, DECIMAL_ONE, PERCENT,
};
use crate::token::fits_in_key;
use crate::utils::{
    fee_of, gross_of, law_amount_to_wrap_leaves_target, law_fee_within_amount,
};
use crate::wrapping::{minted_for, native_to_wrap, sent_native};
use vstd::prelude::*;

verus! {

/// The amount of a stored balance; none, where it does not decode.
pub open spec fn amount_in(balance: Result<u128, Seq<char>>) -> nat {
    match balance {
        Ok(v) => v as nat,
        Err(_) => 0,
    }
}

/// The sum of all balances.
pub open spec fn sum_of(balances: Map<Seq<char>, Result<u128, Seq<char>>>) -> nat
    decreases balances.dom().len(),
    when balances.dom().finite()
{
    if balances.dom().len() == 0 {
        0
    } else {
        let who = balances.dom().choose();
        amount_in(balances[who]) + sum_of(balances.remove(who))
    }
}

proof fn lemma_sum_remove(balances: Map<Seq<char>, Result<u128, Seq<char>>>, who: Seq<char>)
    requires
        balances.dom().finite(),
        balances.contains_key(who),
    ensures
        sum_of(balances) == amount_in(balances[who]) + sum_of(balances.remove(who)),
    decreases balances.dom().len(),
{
    let first = balances.dom().choose();
    assert(balances.dom().len() > 0) by {
        vstd::set::axiom_set_contains_len(balances.dom(), who);
    }
    if first != who {
        lemma_sum_remove(balances.remove(first), who);
        lemma_sum_remove(balances.remove(who), first);
        assert(balances.remove(first).remove(who) =~= balances.remove(who).remove(first));
    }
}

/// Setting a balance changes the sum by as much as it changes the balance.
proof fn lemma_sum_set(book: TokenBook, who: Seq<char>, v: u128)
    requires
        book.balances.dom().finite(),
    ensures
        sum_of(book.balances.insert(who, Ok(v))) == sum_of(book.balances) - book.held(who) + v,
        book.held(who) <= sum_of(book.balances),
{
    let after = book.balances.insert(who, Ok(v));
    lemma_sum_remove(after, who);
    if book.balances.contains_key(who) {
        lemma_sum_remove(book.balances, who);
        assert(after.remove(who) =~= book.balances.remove(who));
    } else {
        assert(after.remove(who) =~= book.balances);
    }
}

/// The books of the token are in order: every balance can be read, and the
/// balances add up to the total supply.
pub open spec fn balanced(book: TokenBook) -> bool {
    &&& book.info is Holds
    &&& book.balances.dom().finite()
    &&& forall|who: Seq<char>| #[trigger]
        book.balances.contains_key(who) ==> book.balances[who] is Ok
    &&& sum_of(book.balances) == book.total_supply()
}

/// The state that a contract at `contract` is in between two messages: it is set
/// up, the fee rate is a whole percentage and at most the whole, the books of the
/// token are in order, this contract alone mints, every token in circulation was
/// issued against a deposit, and every token that is or was on the wrapping list
/// is on record.
pub open spec fn sound(l: Ledger, contract: Seq<char>) -> bool {
    &&& l.config matches Slot::Holds(c)
    &&& c.fee_percentage <= DECIMAL_ONE
    &&& c.fee_percentage % PERCENT == 0
    &&& l.issued matches Slot::Holds(issued)
    &&& l.token.info matches Slot::Holds(t)
    &&& t.mint == Some((contract, None::<u128>))
    &&& t.total_supply <= issued
    &&& balanced(l.token)
    &&& forall|token: Seq<char>| #[trigger]
        l.tokens.contains_key(token) ==> l.historical.contains_key(token)
}

proof fn lemma_credited(book: TokenBook, who: Seq<char>, amount: u128)
    requires
        balanced(book),
        book.total_supply() + amount <= u128::MAX,
    ensures
        book.held(who) + amount <= u128::MAX,
        balanced(book.credited(who, amount).with_total_supply(book.total_supply() + amount)),
        book.minted(who, amount).total_supply() == book.total_supply() + amount,
{
    lemma_sum_set(book, who, (book.held(who) + amount) as u128);
}

proof fn lemma_debited(book: TokenBook, who: Seq<char>, amount: u128)
    requires
        balanced(book),
        amount <= book.held(who),
    ensures
        amount <= book.total_supply(),
        balanced(book.destroyed(who, amount)),
        book.destroyed(who, amount).total_supply() == book.total_supply() - amount,
{
    lemma_sum_set(book, who, (book.held(who) - amount) as u128);
}

proof fn lemma_moved(book: TokenBook, from: Seq<char>, to: Seq<char>, amount: u128)
    requires
        balanced(book),
        amount <= book.held(from),
    ensures
        book.move_fits(from, to, amount),
        balanced(book.moved(from, to, amount)),
        book.moved(from, to, amount).info == book.info,
{
    let middle = book.debited(from, amount);
    lemma_sum_set(book, from, (book.held(from) - amount) as u128);
    lemma_sum_set(middle, to, (middle.held(to) + amount) as u128);
}

/// A contract that is set up on storage without balances and without listed
/// tokens is in a sound state.
pub proof fn law_instantiate_is_sound(
    l: Ledger,
    env: Env,
    info: MessageInfo,
    msg: InstantiateMsg,
)
    requires
        l.token.balances == Map::<Seq<char>, Result<u128, Seq<char>>>::empty(),
        l.tokens == Map::<Seq<char>, Result<bool, Seq<char>>>::empty(),
        instantiate_refusal(l, info, msg) is None,
    ensures
        sound(registered(l, env, msg).with_config(initial_config(info, msg)), env.contract@),
{
    let after = registered(l, env, msg).with_config(initial_config(info, msg));
    assert(after.token.balances.dom() =~= Set::<Seq<char>>::empty());
}

/// Every message that is carried out leads from a sound state to a sound state.
/// So at any time the tokens in circulation were issued against deposits, their
/// balances add up to the total supply, and this contract alone mints.
pub proof fn law_execute_keeps_sound(l: Ledger, env: Env, info: MessageInfo, msg: ExecuteMsg)
    requires
        sound(l, env.contract@),
        execute_fits(l, env, info, msg),
        refusal(l, env, info, msg) is None,
    ensures
        sound(effect(l, env, info, msg), env.contract@),
{
    let who = info.sender@;
    match msg {
        ExecuteMsg::Wrap {  } => {
            let amount = native_to_wrap(l, info)->Ok_0;
            law_fee_within_amount(amount, l.settings().fee_percentage);
            lemma_credited(l.token, who, minted_for(l.settings(), amount));
        },
        ExecuteMsg::Receive(m) => {
            law_fee_within_amount(m.amount, l.settings().fee_percentage);
            lemma_credited(l.token, m.sender@, minted_for(l.settings(), m.amount));
        },
        ExecuteMsg::Unwrap { token, amount } => {
            lemma_debited(l.token, who, amount);
        },
        ExecuteMsg::Transfer { recipient, amount } => {
            lemma_moved(l.token, who, recipient@, amount);
        },
        ExecuteMsg::Burn { amount } => {
            lemma_debited(l.token, who, amount);
        },
        ExecuteMsg::Send { contract, amount, msg } => {
            lemma_moved(l.token, who, contract@, amount);
        },
        ExecuteMsg::TransferFrom { owner, recipient, amount } => {
            lemma_moved(l.token.spent(owner@, who, amount), owner@, recipient@, amount);
        },
        ExecuteMsg::BurnFrom { owner, amount } => {
            lemma_debited(l.token.spent(owner@, who, amount), owner@, amount);
        },
        ExecuteMsg::SendFrom { owner, contract, amount, msg } => {
            lemma_moved(l.token.spent(owner@, who, amount), owner@, contract@, amount);
        },
        _ => {},
    }
}

/// What a sound state alone does not rule out: that the nonces are used up, that
/// an allowance grows past what fits, or that an owner's address is too long for
/// a storage key.
pub open spec fn leaves_room(l: Ledger, info: MessageInfo, msg: ExecuteMsg) -> bool {
    let who = info.sender@;
    match msg {
        ExecuteMsg::AddCw20TokenAddr { token, nonce } => l.settings().proposal_nonce < u64::MAX,
        ExecuteMsg::RemoveCw20TokenAddr { token, nonce } => l.settings().proposal_nonce < u64::MAX,
        ExecuteMsg::IncreaseAllowance { spender, amount, expires } => {
            &&& fits_in_key(who)
            &&& l.token.allowed(who, spender@).allowance + amount <= u128::MAX
        },
        ExecuteMsg::DecreaseAllowance { spender, amount, expires } => fits_in_key(who),
        ExecuteMsg::TransferFrom { owner, recipient, amount } => fits_in_key(owner@),
        ExecuteMsg::BurnFrom { owner, amount } => fits_in_key(owner@),
        ExecuteMsg::SendFrom { owner, contract, amount, msg } => fits_in_key(owner@),
        _ => true,
    }
}

/// In a sound state no amount that a message leads to is too large: wrapping,
/// unwrapping, transferring, sending and burning always get to an answer.
pub proof fn law_sound_state_fits(l: Ledger, env: Env, info: MessageInfo, msg: ExecuteMsg)
    requires
        sound(l, env.contract@),
        leaves_room(l, info, msg),
    ensures
        execute_fits(l, env, info, msg),
{
    let who = info.sender@;
    match msg {
        ExecuteMsg::Wrap {  } => {
            if let Ok(amount) = native_to_wrap(l, info) {
                law_fee_within_amount(amount, l.settings().fee_percentage);
                lemma_credited(l.token, who, minted_for(l.settings(), amount));
            }
        },
        ExecuteMsg::Receive(m) => {
            law_fee_within_amount(m.amount, l.settings().fee_percentage);
            if l.within_limit(m.amount) {
                lemma_credited(l.token, m.sender@, minted_for(l.settings(), m.amount));
            }
        },
        ExecuteMsg::Unwrap { token, amount } => {
            if amount <= l.token.held(who) {
                lemma_debited(l.token, who, amount);
            }
        },
        ExecuteMsg::Transfer { recipient, amount } => {
            if amount <= l.token.held(who) {
                lemma_moved(l.token, who, recipient@, amount);
            }
        },
        ExecuteMsg::Send { contract, amount, msg } => {
            if amount <= l.token.held(who) {
                lemma_moved(l.token, who, contract@, amount);
            }
        },
        ExecuteMsg::TransferFrom { owner, recipient, amount } => {
            if amount <= l.token.held(owner@) {
                lemma_moved(l.token, owner@, recipient@, amount);
            }
        },
        ExecuteMsg::SendFrom { owner, contract, amount, msg } => {
            if amount <= l.token.held(owner@) {
                lemma_moved(l.token, owner@, contract@, amount);
            }
        },
        _ => {},
    }
}

/// The amount that a wrapping message brings, and for whom it is wrapped.
pub open spec fn wrapping_of(l: Ledger, info: MessageInfo, msg: ExecuteMsg) -> Option<
    (Seq<char>, u128),
> {
    match msg {
        ExecuteMsg::Wrap {  } => Some((info.sender@, native_to_wrap(l, info)->Ok_0)),
        ExecuteMsg::Receive(m) => Some((m.sender@, m.amount)),
        _ => None,
    }
}

/// Wrapping loses nothing: the amount that comes in is the fee and what is
/// minted, and the issued amount, the total supply and the balance of whoever it
/// is wrapped for all grow by what is minted. The issued amount stays within the
/// wrapping limit.
pub proof fn law_wrapping_conserves(l: Ledger, env: Env, info: MessageInfo, msg: ExecuteMsg)
    requires
        execute_fits(l, env, info, msg),
        refusal(l, env, info, msg) is None,
        wrapping_of(l, info, msg) is Some,
    ensures
        ({
            let (who, amount) = wrapping_of(l, info, msg)->Some_0;
            let minted = minted_for(l.settings(), amount);
            let after = effect(l, env, info, msg);
            &&& minted + fee_of(amount, l.settings().fee_percentage) == amount
            &&& after.issued == Slot::Holds((l.issued_amount() + minted) as u128)
            &&& l.issued_amount() + minted <= l.settings().wrapping_limit
            &&& after.token.total_supply() == l.token.total_supply() + minted
            &&& after.token.held(who) == l.token.held(who) + minted
        }),
{
}

/// Unwrapping takes the amount off the issued amount, off the total supply and
/// off the balance of the sender.
pub proof fn law_unwrapping_conserves(
    l: Ledger,
    env: Env,
    info: MessageInfo,
    token: Option<String>,
    amount: u128,
)
    requires
        execute_fits(l, env, info, ExecuteMsg::Unwrap { token, amount }),
        refusal(l, env, info, ExecuteMsg::Unwrap { token, amount }) is None,
    ensures
        ({
            let after = effect(l, env, info, ExecuteMsg::Unwrap { token, amount });
            &&& after.issued == Slot::Holds((l.issued_amount() - amount) as u128)
            &&& amount <= l.issued_amount()
            &&& after.token.total_supply() == l.token.total_supply() - amount
            &&& after.token.held(info.sender@) == l.token.held(info.sender@) - amount
        }),
{
}

/// Only wrapping and unwrapping change the issued amount.
pub proof fn law_issued_moves_only_with_wrapping(
    l: Ledger,
    env: Env,
    info: MessageInfo,
    msg: ExecuteMsg,
)
    requires
        wrapping_of(l, info, msg) is None,
        msg !is Unwrap,
    ensures
        effect(l, env, info, msg).issued == l.issued,
{
}

/// As long as nothing is burned the total supply and the issued amount change by
/// the same: so do they with every message that is carried out, but for one that
/// burns.
pub proof fn law_supply_follows_issued(l: Ledger, env: Env, info: MessageInfo, msg: ExecuteMsg)
    requires
        execute_fits(l, env, info, msg),
        refusal(l, env, info, msg) is None,
        msg !is Burn,
        msg !is BurnFrom,
    ensures
        effect(l, env, info, msg).token.total_supply() - l.token.total_supply() == effect(
            l,
            env,
            info,
            msg,
        ).issued_amount() - l.issued_amount(),
{
}

/// Coins of other denominations do not count, nor do coins behind the first of a
/// denomination.
proof fn lemma_first_coin(before: Seq<Coin>, c: Coin, rest: Seq<Coin>)
    requires
        forall|i: int| 0 <= i < before.len() ==> (#[trigger] before[i]).denom@ != c.denom@,
    ensures
        sent_native(before + seq![c] + rest, c.denom@) == Some(c.amount),
    decreases before.len(),
{
    let funds = before + seq![c] + rest;
    if before.len() == 0 {
        assert(funds[0] == c);
    } else {
        assert(funds[0] == before[0]);
        assert(funds.drop_first() =~= before.drop_first() + seq![c] + rest);
        assert(forall|i: int|
            0 <= i < before.drop_first().len() ==> (#[trigger] before.drop_first()[i]) == before[i
                + 1]);
        lemma_first_coin(before.drop_first(), c, rest);
    }
}

/// Of the coins that come with a message only the first of the native denomination
/// is wrapped: with coins of other denominations before it, and any coins after
/// it, the message is answered, refused and written down as with this coin alone.
pub proof fn law_only_the_first_native_coin_counts(
    l: Ledger,
    env: Env,
    info: MessageInfo,
    other: MessageInfo,
    before: Seq<Coin>,
    c: Coin,
    rest: Seq<Coin>,
)
    requires
        l.config is Holds,
        c.denom@ == l.settings().native_token_denom,
        forall|i: int| 0 <= i < before.len() ==> (#[trigger] before[i]).denom@ != c.denom@,
        info.sender@ == other.sender@,
        info.funds@ == seq![c],
        other.funds@ == before + seq![c] + rest,
    ensures
        execute_fits(l, env, other, ExecuteMsg::Wrap {  }) == execute_fits(
            l,
            env,
            info,
            ExecuteMsg::Wrap {  },
        ),
        refusal(l, env, other, ExecuteMsg::Wrap {  }) == refusal(
            l,
            env,
            info,
            ExecuteMsg::Wrap {  },
        ),
        effect(l, env, other, ExecuteMsg::Wrap {  }) == effect(l, env, info, ExecuteMsg::Wrap {  }),
        leavings(l, env, other, ExecuteMsg::Wrap {  }) == leavings(
            l,
            env,
            info,
            ExecuteMsg::Wrap {  },
        ),
        reply(l, other, ExecuteMsg::Wrap {  }) == reply(l, info, ExecuteMsg::Wrap {  }),
{
    lemma_first_coin(before, c, rest);
    lemma_first_coin(Seq::empty(), c, Seq::empty());
    assert(Seq::<Coin>::empty() + seq![c] + Seq::<Coin>::empty() =~= info.funds@);
}

/// Whoever wraps tokens in a sound state can unwrap what was minted for them
/// right away, and then every balance, the total supply, the issued amount and
/// the settings are what they were before. Native tokens come back as such, and
/// tokens of a cw20 contract as tokens of that contract.
pub proof fn law_unwrapping_undoes_wrapping(
    l: Ledger,
    env: Env,
    info: MessageInfo,
    msg: ExecuteMsg,
    later: Env,
    back_info: MessageInfo,
    token: Option<String>,
)
    requires
        sound(l, env.contract@),
        refusal(l, env, info, msg) is None,
        wrapping_of(l, info, msg) matches Some(w) && back_info.sender@ == w.0,
        match msg {
            ExecuteMsg::Wrap {  } => token is None,
            _ => token matches Some(t) && t@ == info.sender@,
        },
    ensures
        ({
            let amount = wrapping_of(l, info, msg)->Some_0.1;
            let back = ExecuteMsg::Unwrap { token, amount: minted_for(l.settings(), amount) };
            let middle = effect(l, env, info, msg);
            let after = effect(middle, later, back_info, back);
            &&& execute_fits(middle, later, back_info, back)
            &&& refusal(middle, later, back_info, back) is None
            &&& after.issued == l.issued
            &&& after.config == l.config
            &&& after.token.info == l.token.info
            &&& forall|who: Seq<char>| after.token.held(who) == l.token.held(who)
        }),
{
    law_sound_state_fits(l, env, info, msg);
    law_execute_keeps_sound(l, env, info, msg);
    let (who, amount) = wrapping_of(l, info, msg)->Some_0;
    let minted = minted_for(l.settings(), amount);
    let middle = effect(l, env, info, msg);
    law_wrapping_conserves(l, env, info, msg);
    lemma_debited(middle.token, who, minted);
    assert(middle.token.readable(who));
    let after = middle.unwrapped(who, minted);
    assert forall|x: Seq<char>| after.token.held(x) == l.token.held(x) by {}
}

/// Whether a message governs the contract.
pub open spec fn governs(msg: ExecuteMsg) -> bool {
    match msg {
        ExecuteMsg::SetGoverner { .. } => true,
        ExecuteMsg::SetNativeAllowed { .. } => true,
        ExecuteMsg::UpdateLimit { .. } => true,
        ExecuteMsg::SetFee { .. } => true,
        ExecuteMsg::SetFeeRecipient { .. } => true,
        ExecuteMsg::AddCw20TokenAddr { .. } => true,
        ExecuteMsg::RemoveCw20TokenAddr { .. } => true,
        _ => false,
    }
}

/// Only the governer governs: a governing message of anyone else is refused, and
/// no other message touches the settings or the wrapping list.
pub proof fn law_only_the_governer_governs(l: Ledger, env: Env, info: MessageInfo, msg: ExecuteMsg)
    ensures
        governs(msg) && refusal(l, env, info, msg) is None ==> {
            &&& l.config is Holds
            &&& l.settings().governer == info.sender@
        },
        !governs(msg) ==> {
            let after = effect(l, env, info, msg);
            &&& after.config == l.config
            &&& after.tokens == l.tokens
            &&& after.historical == l.historical
        },
{
}

/// Governing leaves the books of the token and the issued amount alone.
pub proof fn law_governing_moves_no_tokens(l: Ledger, env: Env, info: MessageInfo, msg: ExecuteMsg)
    requires
        governs(msg),
    ensures
        effect(l, env, info, msg).token == l.token,
        effect(l, env, info, msg).issued == l.issued,
{
}

/// Whether a message changes the wrapping list.
pub open spec fn proposes(msg: ExecuteMsg) -> bool {
    msg is AddCw20TokenAddr || msg is RemoveCw20TokenAddr
}

/// The nonce of a message that changes the wrapping list.
pub open spec fn nonce_of(msg: ExecuteMsg) -> u64 {
    match msg {
        ExecuteMsg::AddCw20TokenAddr { token, nonce } => nonce,
        ExecuteMsg::RemoveCw20TokenAddr { token, nonce } => nonce,
        _ => 0,
    }
}

/// Each change of the wrapping list takes the nonce one further, and no other
/// message moves it.
pub proof fn law_nonce_counts_proposals(l: Ledger, env: Env, info: MessageInfo, msg: ExecuteMsg)
    requires
        l.config is Holds,
        refusal(l, env, info, msg) is None,
    ensures
        effect(l, env, info, msg).config is Holds,
        effect(l, env, info, msg).settings().proposal_nonce == l.settings().proposal_nonce + (
        if proposes(msg) {
            1int
        } else {
            0
        }),
{
}

/// A nonce that is not past the last one does not serve: a change of the wrapping
/// list that comes with it is refused.
pub proof fn law_used_nonce_is_refused(
    l: Ledger,
    later: Env,
    later_info: MessageInfo,
    replay: ExecuteMsg,
)
    requires
        l.config is Holds,
        proposes(replay),
        nonce_of(replay) <= l.settings().proposal_nonce,
    ensures
        refusal(l, later, later_info, replay) is Some,
{
}

/// A message, from whom it comes, and where and when it is handled.
pub struct Step {
    pub env: Env,
    pub info: MessageInfo,
    pub msg: ExecuteMsg,
}

/// Whether a message is carried out.
pub open spec fn carried_out(l: Ledger, s: Step) -> bool {
    execute_fits(l, s.env, s.info, s.msg) && refusal(l, s.env, s.info, s.msg) is None
}

/// The ledger once the chain is done with a message: it drops what a message has
/// written that was refused or did not get to an answer.
pub open spec fn settled(l: Ledger, s: Step) -> Ledger {
    if carried_out(l, s) {
        effect(l, s.env, s.info, s.msg)
    } else {
        l
    }
}

/// The ledger once the chain is done with one message after the other.
pub open spec fn settled_all(l: Ledger, steps: Seq<Step>) -> Ledger
    decreases steps.len(),
{
    if steps.len() == 0 {
        l
    } else {
        settled(settled_all(l, steps.drop_last()), steps.last())
    }
}

/// Whatever messages come, the nonce never goes back.
pub proof fn law_nonce_never_goes_back(l: Ledger, steps: Seq<Step>)
    requires
        l.config is Holds,
    ensures
        settled_all(l, steps).config is Holds,
        settled_all(l, steps).settings().proposal_nonce >= l.settings().proposal_nonce,
    decreases steps.len(),
{
    if steps.len() > 0 {
        law_nonce_never_goes_back(l, steps.drop_last());
        let before = settled_all(l, steps.drop_last());
        let s = steps.last();
        if refusal(before, s.env, s.info, s.msg) is None {
            law_nonce_counts_proposals(before, s.env, s.info, s.msg);
        }
    }
}

/// A nonce serves once: after a change of the wrapping list, and whatever messages
/// come then, no other change with the same nonce is carried out.
pub proof fn law_nonce_serves_once(
    l: Ledger,
    env: Env,
    info: MessageInfo,
    msg: ExecuteMsg,
    steps: Seq<Step>,
    later: Env,
    later_info: MessageInfo,
    replay: ExecuteMsg,
)
    requires
        proposes(msg),
        proposes(replay),
        nonce_of(replay) == nonce_of(msg),
        refusal(l, env, info, msg) is None,
    ensures
        refusal(settled_all(effect(l, env, info, msg), steps), later, later_info, replay) is Some,
{
    let after = effect(l, env, info, msg);
    law_nonce_never_goes_back(after, steps);
    law_used_nonce_is_refused(settled_all(after, steps), later, later_info, replay);
}

/// Whatever messages come, a sound state stays sound.
pub proof fn law_sound_for_ever(l: Ledger, contract: Seq<char>, steps: Seq<Step>)
    requires
        sound(l, contract),
        forall|i: int| 0 <= i < steps.len() ==> (#[trigger] steps[i]).env.contract@ == contract,
    ensures
        sound(settled_all(l, steps), contract),
    decreases steps.len(),
{
    if steps.len() > 0 {
        let s = steps.last();
        assert(forall|i: int|
            0 <= i < steps.drop_last().len() ==> (#[trigger] steps.drop_last()[i]) == steps[i]);
        law_sound_for_ever(l, contract, steps.drop_last());
        let before = settled_all(l, steps.drop_last());
        if carried_out(before, s) {
            law_execute_keeps_sound(before, s.env, s.info, s.msg);
        }
    }
}

/// Whether none of the messages that are carried out burns.
pub open spec fn burns_nothing(l: Ledger, steps: Seq<Step>) -> bool
    decreases steps.len(),
{
    steps.len() == 0 || {
        let s = steps.last();
        &&& burns_nothing(l, steps.drop_last())
        &&& carried_out(settled_all(l, steps.drop_last()), s) ==> s.msg !is Burn && s.msg !is BurnFrom
    }
}

proof fn lemma_supply_equals_issued(l: Ledger, steps: Seq<Step>)
    requires
        l.issued == Slot::Holds(l.token.total_supply()),
        burns_nothing(l, steps),
    ensures
        settled_all(l, steps).issued == Slot::Holds(settled_all(l, steps).token.total_supply()),
    decreases steps.len(),
{
    if steps.len() > 0 {
        lemma_supply_equals_issued(l, steps.drop_last());
        let before = settled_all(l, steps.drop_last());
        let s = steps.last();
        if carried_out(before, s) {
            law_supply_follows_issued(before, s.env, s.info, s.msg);
        }
    }
}

/// From the moment a contract is set up, and as long as no burn is carried out,
/// the total supply is the issued amount.
pub proof fn law_supply_equals_issued_until_burned(
    l: Ledger,
    env: Env,
    info: MessageInfo,
    msg: InstantiateMsg,
    steps: Seq<Step>,
)
    requires
        instantiate_refusal(l, info, msg) is None,
        burns_nothing(registered(l, env, msg).with_config(initial_config(info, msg)), steps),
    ensures
        ({
            let after = settled_all(
                registered(l, env, msg).with_config(initial_config(info, msg)),
                steps,
            );
            after.issued == Slot::Holds(after.token.total_supply())
        }),
{
    lemma_supply_equals_issued(
        registered(l, env, msg).with_config(initial_config(info, msg)),
        steps,
    );
}

/// A token that was added to the wrapping list can be wrapped and unwrapped: its
/// notices are not refused for the address.
pub proof fn law_added_token_is_listed(
    l: Ledger,
    env: Env,
    info: MessageInfo,
    token: String,
    nonce: u64,
)
    ensures
        effect(l, env, info, ExecuteMsg::AddCw20TokenAddr { token, nonce }).is_listed(token@),
        slot(
            effect(l, env, info, ExecuteMsg::AddCw20TokenAddr { token, nonce }).historical,
            token@,
        ) == Slot::Holds(true),
{
}

proof fn lemma_flag_stays_down(l: Ledger, steps: Seq<Step>, token: Seq<char>)
    requires
        slot(l.tokens, token) == Slot::Holds(false),
    ensures
        slot(settled_all(l, steps).tokens, token) == Slot::Holds(false),
        settled_all(l, steps).addresses == l.addresses,
    decreases steps.len(),
{
    if steps.len() > 0 {
        lemma_flag_stays_down(l, steps.drop_last(), token);
    }
}

/// A token that was taken off the wrapping list stays off, whatever messages come:
/// its notices and its payouts are refused for the address, and it can neither be
/// taken off again nor be added again.
pub proof fn law_removed_token_stays_off(
    l: Ledger,
    steps: Seq<Step>,
    token: String,
    env: Env,
    info: MessageInfo,
    notifying: MessageInfo,
    m: Cw20ReceiveMsg,
    amount: u128,
    nonce: u64,
)
    requires
        slot(l.tokens, token@) == Slot::Holds(false),
        notifying.sender@ == token@,
    ensures
        ({
            let after = settled_all(l, steps);
            let off = Some(Refusal::Generic("Invalid Cw20 token address"@));
            let unwrap = ExecuteMsg::Unwrap { token: Some(token), amount };
            let remove = ExecuteMsg::RemoveCw20TokenAddr { token, nonce };
            let add_again = ExecuteMsg::AddCw20TokenAddr { token, nonce };
            &&& slot(after.tokens, token@) == Slot::Holds(false)
            &&& refusal(after, env, notifying, ExecuteMsg::Receive(m)) == off
            &&& refusal(after, env, info, unwrap) == off
            &&& l.addresses.contains(token@) ==> {
                &&& refusal(after, env, info, remove) == Some(
                    Refusal::Generic("Token must be valid"@),
                )
                &&& refusal(after, env, info, add_again) == Some(
                    Refusal::Generic("Token must not be valid"@),
                )
            }
        }),
{
    lemma_flag_stays_down(l, steps, token@);
}

/// Taking a token off the wrapping list puts its flag down.
pub proof fn law_removing_unlists(
    l: Ledger,
    env: Env,
    info: MessageInfo,
    token: String,
    nonce: u64,
)
    ensures
        slot(
            effect(l, env, info, ExecuteMsg::RemoveCw20TokenAddr { token, nonce }).tokens,
            token@,
        ) == Slot::Holds(false),
{
}

/// Tokens that are not on the wrapping list are neither wrapped nor paid out.
pub proof fn law_unlisted_token_is_refused(
    l: Ledger,
    env: Env,
    info: MessageInfo,
    m: Cw20ReceiveMsg,
    token: String,
    amount: u128,
)
    ensures
        !l.is_listed(info.sender@) ==> refusal(l, env, info, ExecuteMsg::Receive(m)) == Some(
            Refusal::Generic("Invalid Cw20 token address"@),
        ),
        !l.is_listed(token@) ==> refusal(
            l,
            env,
            info,
            ExecuteMsg::Unwrap { token: Some(token), amount },
        ) == Some(Refusal::Generic("Invalid Cw20 token address"@)),
{
}

/// The record of tokens that were ever listed only grows.
pub proof fn law_history_only_grows(
    l: Ledger,
    env: Env,
    info: MessageInfo,
    msg: ExecuteMsg,
    token: Seq<char>,
)
    requires
        slot(l.historical, token) == Slot::Holds(true),
    ensures
        slot(effect(l, env, info, msg).historical, token) == Slot::Holds(true),
{
}

/// What a contract is set up with, the settings query shows.
pub proof fn law_query_shows_what_was_set_up(
    l: Ledger,
    env: Env,
    info: MessageInfo,
    msg: InstantiateMsg,
    r: QueryResponse,
)
    requires
        instantiate_refusal(l, info, msg) is None,
        shows(
            registered(l, env, msg).with_config(initial_config(info, msg)),
            QueryMsg::Config {  },
            r,
        ),
    ensures
        r matches QueryResponse::Config(c) && {
            &&& c.governer@ == initial_governer(info, msg)
            &&& c.native_token_denom@ == msg.native_token_denom@
            &&& c.fee_recipient@ == msg.fee_recipient@
            &&& c.fee_percentage@ == decimal_text(
                percent(percentage(msg.fee_percentage@)->Ok_0 as nat),
            )
            &&& c.is_native_allowed@ == flag_text(msg.is_native_allowed != 0)
            &&& c.wrapping_limit@ == digits(amount_of(msg.wrapping_limit@)->Ok_0 as nat)
            &&& c.proposal_nonce@ == digits(0)
        },
        query_refusal(
            registered(l, env, msg).with_config(initial_config(info, msg)),
            QueryMsg::Config {  },
        ) is None,
{
}

/// What a message sets, the settings query shows afterwards; of everything else it
/// shows what it showed before.
pub proof fn law_query_shows_what_was_set(
    l: Ledger,
    env: Env,
    info: MessageInfo,
    msg: ExecuteMsg,
    before: ConfigResponse,
    after: ConfigResponse,
)
    requires
        refusal(l, env, info, msg) is None,
        shows(l, QueryMsg::Config {  }, QueryResponse::Config(before)),
        shows(effect(l, env, info, msg), QueryMsg::Config {  }, QueryResponse::Config(after)),
    ensures
        after.native_token_denom@ == before.native_token_denom@,
        after.governer@ == match msg {
            ExecuteMsg::SetGoverner { new_governer } => new_governer@,
            _ => before.governer@,
        },
        after.fee_recipient@ == match msg {
            ExecuteMsg::SetFeeRecipient { new_recipient } => new_recipient@,
            _ => before.fee_recipient@,
        },
        after.fee_percentage@ == match msg {
            ExecuteMsg::SetFee { new_fee_perc } => decimal_text(
                percent(percentage(new_fee_perc@)->Ok_0 as nat),
            ),
            _ => before.fee_percentage@,
        },
        after.is_native_allowed@ == match msg {
            ExecuteMsg::SetNativeAllowed { is_native_allowed } => flag_text(is_native_allowed != 0),
            _ => before.is_native_allowed@,
        },
        after.wrapping_limit@ == match msg {
            ExecuteMsg::UpdateLimit { new_limit } => digits(amount_of(new_limit@)->Ok_0 as nat),
            _ => before.wrapping_limit@,
        },
        after.proposal_nonce@ == match msg {
            ExecuteMsg::AddCw20TokenAddr { token, nonce } => digits(nonce as nat),
            ExecuteMsg::RemoveCw20TokenAddr { token, nonce } => digits(nonce as nat),
            _ => before.proposal_nonce@,
        },
        governs(msg) ==> query_refusal(effect(l, env, info, msg), QueryMsg::Config {  }) is None,
{
}

/// The message by which a fee is paid: native tokens are sent to the fee recipient,
/// and a cw20 token contract is asked to transfer its tokens to them.
pub open spec fn fee_payment(l: Ledger, info: MessageInfo, msg: ExecuteMsg, fee: u128) -> Outgoing {
    let to = l.settings().fee_recipient;
    match msg {
        ExecuteMsg::Receive(_) => Outgoing::WasmExecute {
            contract: info.sender@,
            msg: transfer_payload(to, fee),
        },
        _ => Outgoing::BankSend { to, amount: fee, denom: l.settings().native_token_denom },
    }
}

/// The fee that a query shows for an amount is the fee that wrapping this amount
/// costs: it is reported, it is what the fee recipient is paid, and the rest of the
/// amount is what is minted.
pub proof fn law_fee_query_agrees_with_wrapping(
    l: Ledger,
    env: Env,
    info: MessageInfo,
    msg: ExecuteMsg,
    amount_to_wrap: String,
    a: FeeFromAmountResponse,
)
    requires
        execute_fits(l, env, info, msg),
        refusal(l, env, info, msg) is None,
        wrapping_of(l, info, msg) matches Some(w) && amount_of(amount_to_wrap@) == Ok::<
            u128,
            Refusal,
        >(w.1),
        shows(l, QueryMsg::FeeFromAmount { amount_to_wrap }, QueryResponse::FeeFromAmount(a)),
    ensures
        ({
            let (who, amount) = wrapping_of(l, info, msg)->Some_0;
            let fee = numeral(a.fee_amt@)->Some_0;
            let after = effect(l, env, info, msg);
            &&& numeral(a.fee_amt@) is Some
            &&& fee <= amount
            &&& reply(l, info, msg).messages == seq![fee_payment(l, info, msg, fee as u128)]
            &&& reply(l, info, msg).attributes[2] == ("minted"@, digits((amount - fee) as nat))
            &&& reply(l, info, msg).attributes[3] == ("fee"@, a.fee_amt@)
            &&& after.token.held(who) == l.token.held(who) + amount - fee
            &&& after.token.total_supply() == l.token.total_supply() + amount - fee
            &&& after.issued_amount() == l.issued_amount() + amount - fee
        }),
{
    let (who, amount) = wrapping_of(l, info, msg)->Some_0;
    law_number_text_round_trip(fee_of(amount, l.settings().fee_percentage));
    law_wrapping_conserves(l, env, info, msg);
}

/// Whoever sends the amount that a query shows for a target gets exactly the
/// target minted.
pub proof fn law_amount_query_leaves_target(
    l: Ledger,
    target_amount: String,
    r: QueryResponse,
)
    requires
        query_fits(l, QueryMsg::GetAmountToWrap { target_amount }),
        query_refusal(l, QueryMsg::GetAmountToWrap { target_amount }) is None,
        shows(l, QueryMsg::GetAmountToWrap { target_amount }, r),
    ensures
        ({
            let target = amount_of(target_amount@)->Ok_0;
            let gross = gross_of(target, l.settings().fee_percentage);
            &&& r matches QueryResponse::GetAmountToWrap(a)
            &&& a.amount_to_wrap@ == digits(gross)
            &&& gross <= u128::MAX
            &&& minted_for(l.settings(), gross as u128) == target
        }),
{
    law_amount_to_wrap_leaves_target(amount_of(target_amount@)->Ok_0, l.settings().fee_percentage);
}

/// An answer that shows an allowance.
pub open spec fn is_allowance(r: QueryResponse, allowance: int, expires: Expiration) -> bool {
    r matches QueryResponse::Allowance(a) && a.allowance == allowance && a.expires == expires
}

/// What an owner lets a spender spend, the allowance query shows. Raising it and
/// then lowering it by the same amount shows the allowance that was there before;
/// where there was nothing to spend, nothing, for ever.
pub proof fn law_allowance_reads_back(
    l: Ledger,
    env: Env,
    info: MessageInfo,
    owner: String,
    spender: String,
    amount: u128,
    r: QueryResponse,
)
    requires
        owner@ == info.sender@,
        execute_fits(l, env, info, ExecuteMsg::IncreaseAllowance { spender, amount, expires: None }),
        refusal(l, env, info, ExecuteMsg::IncreaseAllowance { spender, amount, expires: None }) is None,
    ensures
        ({
            let ask = QueryMsg::Allowance { owner, spender };
            let raise = ExecuteMsg::IncreaseAllowance { spender, amount, expires: None };
            let lower = ExecuteMsg::DecreaseAllowance { spender, amount, expires: None };
            let before = l.token.allowed(owner@, spender@);
            let middle = effect(l, env, info, raise);
            let after = effect(middle, env, info, lower);
            &&& shows(middle, ask, r) ==> is_allowance(r, before.allowance + amount, before.expires)
            &&& refusal(middle, env, info, lower) is None
            &&& before.allowance > 0 && shows(after, ask, r) ==> is_allowance(
                r,
                before.allowance as int,
                before.expires,
            )
            &&& before.allowance == 0 && shows(after, ask, r) ==> is_allowance(
                r,
                0,
                Expiration::Never,
            )
        }),
{
}

/// Who gives and who gets, and how much, when a message moves wrapped tokens.
pub open spec fn moving_of(info: MessageInfo, msg: ExecuteMsg) -> Option<
    (Seq<char>, Seq<char>, u128),
> {
    match msg {
        ExecuteMsg::Transfer { recipient, amount } => Some((info.sender@, recipient@, amount)),
        ExecuteMsg::Send { contract, amount, msg } => Some((info.sender@, contract@, amount)),
        ExecuteMsg::TransferFrom { owner, recipient, amount } => Some((owner@, recipient@, amount)),
        ExecuteMsg::SendFrom { owner, contract, amount, msg } => Some((owner@, contract@, amount)),
        _ => None,
    }
}

/// Moving wrapped tokens changes two balances by the amount that is moved, and
/// neither the total supply nor any other balance.
pub proof fn law_moving_conserves(l: Ledger, env: Env, info: MessageInfo, msg: ExecuteMsg)
    requires
        execute_fits(l, env, info, msg),
        refusal(l, env, info, msg) is None,
        moving_of(info, msg) is Some,
    ensures
        ({
            let (from, to, amount) = moving_of(info, msg)->Some_0;
            let after = effect(l, env, info, msg);
            &&& after.token.info == l.token.info
            &&& from != to ==> after.token.held(from) == l.token.held(from) - amount
            &&& from != to ==> after.token.held(to) == l.token.held(to) + amount
            &&& from == to ==> after.token.held(to) == l.token.held(to)
            &&& forall|who: Seq<char>|
                who != from && who != to ==> after.token.held(who) == l.token.held(who)
        }),
{
}

} // verus!
