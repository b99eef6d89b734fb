//! Setting the contract up and governing it.
use crate::error::{by_std, first, generic, Refusal, WrapperError};
use crate::msg::{Env, InstantiateMsg, MessageInfo};
use crate::reply::{add_attribute, lemma_attribute_keys, new_reply, reply_view, saying, ReplyView};
use crate::state::{
    addr_validate, as_ref, has_token, ledger, ledger_seen, load_config, load_token, save_config,
    save_historical, save_supply, save_token, set_contract_version, slot, Config, ConfigView, Deps,
    DepsMut, Ledger, MinterData, Slot, Supply, TokenBook, TokenInfo, TokenInfoView,
};
use crate::text::{
    decimal_text, decimal_to_string, digits, flag_text, flag_to_string, number_to_string, numeral,
    parse_u128, parse_u64, u128_parse_failure, u64_parse_failure, PERCENT,
};
use crate::token::save_token_info;
use crate::wrapping::answers;
use vstd::prelude::*;

verus! {

pub const CONTRACT_NAME: &'static str = "crates.io:cosmwasm-tokenwrapper";

pub const CONTRACT_VERSION: &'static str = "0.1.0";

/// The fee rate of a whole percentage, in atomic units.
pub open spec fn percent(p: nat) -> nat {
    p * PERCENT as nat
}

/// The whole percentage that a text gives.
pub open spec fn percentage(text: Seq<char>) -> Result<u64, Refusal> {
    match numeral(text) {
        Some(n) if n <= 100 => Ok(n as u64),
        Some(n) if n <= u64::MAX => Err(
            Refusal::Generic("Percentage should be in range [0, 100]"@),
        ),
        _ => Err(Refusal::Generic(u64_parse_failure(text))),
    }
}

/// The amount that a text gives.
pub open spec fn amount_of(text: Seq<char>) -> Result<u128, Refusal> {
    match numeral(text) {
        Some(n) if n <= u128::MAX => Ok(n as u128),
        _ => Err(Refusal::Generic(u128_parse_failure(text))),
    }
}

/// Reads a fee percentage between 0 and 100 and gives the fee rate.
pub fn parse_fee_percentage(text: &str) -> (res: Result<u128, WrapperError>)
    ensures
        match percentage(text@) {
            Ok(p) => res matches Ok(rate) && rate == percent(p as nat),
            Err(f) => res matches Err(e) && e@ == f,
        },
{
    match parse_u64(text) {
        Ok(v) => {
            if v > 100 {
                Err(generic("Percentage should be in range [0, 100]"))
            } else {
                Ok(v as u128 * PERCENT)
            }
        },
        Err(e) => Err(WrapperError::Generic(e)),
    }
}

/// Reads an amount.
pub fn parse_amount(text: &str) -> (res: Result<u128, WrapperError>)
    ensures
        match amount_of(text@) {
            Ok(v) => res == Ok::<u128, WrapperError>(v),
            Err(f) => res matches Err(e) && e@ == f,
        },
{
    match parse_u128(text) {
        Ok(v) => Ok(v),
        Err(e) => Err(WrapperError::Generic(e)),
    }
}

/// The text that names the governer: the sender, where the message names nobody.
pub open spec fn initial_governer(info: MessageInfo, msg: InstantiateMsg) -> Seq<char> {
    match msg.governer {
        Some(v) => v@,
        None => info.sender@,
    }
}

/// What `instantiate` refuses.
pub open spec fn instantiate_refusal(l: Ledger, info: MessageInfo, msg: InstantiateMsg) -> Option<
    Refusal,
> {
    let governer = match msg.governer {
        Some(v) => l.address_fault(v@),
        None => None,
    };
    let addresses = first(governer, l.address_fault(msg.fee_recipient@));
    let numbers = first(
        percentage(msg.fee_percentage@).err(),
        amount_of(msg.wrapping_limit@).err(),
    );
    first(by_std(addresses), numbers)
}

/// The ledger once the contract is registered: a token that has no supply yet
/// and that only this contract mints, and nothing issued.
pub open spec fn registered(l: Ledger, env: Env, msg: InstantiateMsg) -> Ledger {
    Ledger {
        version: Slot::Holds((CONTRACT_NAME@, CONTRACT_VERSION@)),
        issued: Slot::Holds(0),
        token: TokenBook {
            info: Slot::Holds(
                TokenInfoView {
                    name: msg.name@,
                    symbol: msg.symbol@,
                    decimals: msg.decimals,
                    total_supply: 0,
                    mint: Some((env.contract@, None)),
                },
            ),
            ..l.token
        },
        ..l
    }
}

pub open spec fn initial_config(info: MessageInfo, msg: InstantiateMsg) -> ConfigView {
    ConfigView {
        governer: initial_governer(info, msg),
        fee_recipient: msg.fee_recipient@,
        fee_percentage: percent(percentage(msg.fee_percentage@)->Ok_0 as nat) as u128,
        native_token_denom: msg.native_token_denom@,
        is_native_allowed: msg.is_native_allowed != 0,
        wrapping_limit: amount_of(msg.wrapping_limit@)->Ok_0,
        proposal_nonce: 0,
    }
}

/// The promise of `instantiate`. It is refused for the reason that
/// `instantiate_refusal` gives, or answers with an empty reply. Either way the
/// contract is registered, and if it was not refused the settings are stored.
pub open spec fn set_up(
    before: Ledger,
    after: Ledger,
    env: Env,
    info: MessageInfo,
    msg: InstantiateMsg,
    res: Result<cosmwasm_std::Response, WrapperError>,
) -> bool {
    &&& answers(
        res,
        instantiate_refusal(before, info, msg),
        saying(Seq::empty(), Seq::empty()),
    )
    &&& res is Ok ==> after == registered(before, env, msg).with_config(initial_config(info, msg))
    &&& res is Err ==> after == registered(before, env, msg)
}

/// Sets the contract up.
pub fn instantiate(
    deps: &mut DepsMut<'_>,
    env: Env,
    info: MessageInfo,
    msg: InstantiateMsg,
) -> (res: Result<cosmwasm_std::Response, WrapperError>)
    ensures
        set_up(ledger(*old(deps)), ledger(*final(deps)), env, info, msg, res),
{
    if let Err(e) = set_contract_version(deps, CONTRACT_NAME, CONTRACT_VERSION) {
        return Err(WrapperError::Std(e));
    }

    // Store the token, with this contract as the minter
    let data = TokenInfo {
        name: msg.name,
        symbol: msg.symbol,
        decimals: msg.decimals,
        total_supply: 0,
        mint: Some(MinterData { minter: env.contract, cap: None }),
    };
    if let Err(e) = save_token_info(deps, data) {
        return Err(WrapperError::Std(e));
    }

    // Set the supply to 0
    if let Err(e) = save_supply(deps, Supply::default()) {
        return Err(WrapperError::Std(e));
    }
    assert(ledger(*deps) == registered(ledger(*old(deps)), env, msg));

    // Set the config
    let governer = match msg.governer {
        Some(v) => match addr_validate(&as_ref(deps), v.as_str()) {
            Ok(addr) => addr,
            Err(e) => return Err(WrapperError::Std(e)),
        },
        None => info.sender,
    };
    let fee_recipient = match addr_validate(&as_ref(deps), msg.fee_recipient.as_str()) {
        Ok(addr) => addr,
        Err(e) => return Err(WrapperError::Std(e)),
    };
    let fee_percentage = match parse_fee_percentage(msg.fee_percentage.as_str()) {
        Ok(rate) => rate,
        Err(e) => return Err(e),
    };
    let wrapping_limit = match parse_amount(msg.wrapping_limit.as_str()) {
        Ok(limit) => limit,
        Err(e) => return Err(e),
    };
    let config = Config {
        governer,
        fee_recipient,
        fee_percentage,
        native_token_denom: msg.native_token_denom,
        is_native_allowed: msg.is_native_allowed != 0,
        wrapping_limit,
        proposal_nonce: 0,
    };
    if let Err(e) = save_config(deps, config) {
        return Err(WrapperError::Std(e));
    }
    Ok(new_reply())
}

impl Ledger {
    pub open spec fn with_config(self, c: ConfigView) -> Ledger {
        Ledger { config: Slot::Holds(c), ..self }
    }

    /// Why a sender does not govern the contract.
    pub open spec fn governer_refusal(self, info: MessageInfo) -> Option<Refusal> {
        let trouble = first(self.config.load_fault(), self.address_fault(info.sender@));
        if trouble is Some {
            by_std(trouble)
        } else if self.settings().governer != info.sender@ {
            Some(Refusal::Unauthorized)
        } else {
            None
        }
    }
}

/// Loads the settings for a sender who governs the contract.
fn governed_config(deps: &Deps<'_>, info: &MessageInfo) -> (res: Result<Config, WrapperError>)
    ensures
        match ledger_seen(*deps).governer_refusal(*info) {
            Some(f) => res matches Err(e) && e@ == f,
            None => res matches Ok(c) && ledger_seen(*deps).config == Slot::Holds(c@),
        },
{
    let config = match load_config(deps) {
        Ok(config) => config,
        Err(e) => return Err(WrapperError::Std(e)),
    };
    match addr_validate(deps, info.sender.as_str()) {
        Ok(sender) => {
            if config.governer == sender {
                Ok(config)
            } else {
                Err(WrapperError::Unauthorized {  })
            }
        },
        Err(e) => Err(WrapperError::Std(e)),
    }
}

/// A reply that sends nothing out and reports a method and its result.
pub open spec fn method_reply(method: Seq<char>, key: Seq<char>, value: Seq<char>) -> ReplyView {
    saying(Seq::empty(), seq![("method"@, method), (key, value)])
}

fn report_method(method: &str, key: &str, value: String) -> (r: cosmwasm_std::Response)
    requires
        key@[0] != '_',
    ensures
        reply_view(r) == method_reply(method@, key@, value@),
{
    proof {
        lemma_attribute_keys();
    }
    let r = new_reply();
    let r = add_attribute(r, "method", method.to_owned());
    let r = add_attribute(r, key, value);
    assert(reply_view(r) =~= method_reply(method@, key@, value@));
    r
}

pub open spec fn set_governer_refusal(
    l: Ledger,
    info: MessageInfo,
    new_governer: Seq<char>,
) -> Option<Refusal> {
    first(l.governer_refusal(info), by_std(l.address_fault(new_governer)))
}

/// Sets a new governer.
pub fn set_governer(
    deps: &mut DepsMut<'_>,
    _env: Env,
    info: MessageInfo,
    new_governer: String,
) -> (res: Result<cosmwasm_std::Response, WrapperError>)
    ensures
        answers(
            res,
            set_governer_refusal(ledger(*old(deps)), info, new_governer@),
            method_reply("set_governer"@, "new_governer"@, new_governer@),
        ),
        res is Ok ==> ledger(*final(deps)) == ledger(*old(deps)).with_config(
            ConfigView {
                governer: new_governer@,
                ..ledger(*old(deps)).settings()
            },
        ),
        res is Err ==> ledger(*final(deps)) == ledger(*old(deps)),
{
    // Validate the tx sender
    let mut config = match governed_config(&as_ref(deps), &info) {
        Ok(config) => config,
        Err(e) => return Err(e),
    };

    // Validate & save the new governer
    config.governer = match addr_validate(&as_ref(deps), new_governer.as_str()) {
        Ok(addr) => addr,
        Err(e) => return Err(WrapperError::Std(e)),
    };
    if let Err(e) = save_config(deps, config) {
        return Err(WrapperError::Std(e));
    }
    proof {
        lemma_attribute_keys();
    }
    Ok(report_method("set_governer", "new_governer", new_governer))
}

pub open spec fn set_native_allowed_refusal(l: Ledger, info: MessageInfo) -> Option<Refusal> {
    l.governer_refusal(info)
}

/// Allows or forbids wrapping and unwrapping the native token.
pub fn set_native_allowed(
    deps: &mut DepsMut<'_>,
    info: MessageInfo,
    is_native_allowed: u32,
) -> (res: Result<cosmwasm_std::Response, WrapperError>)
    ensures
        answers(
            res,
            set_native_allowed_refusal(ledger(*old(deps)), info),
            method_reply(
                "set_native_allowed"@,
                "is_native_allowed"@,
                flag_text(is_native_allowed != 0),
            ),
        ),
        res is Ok ==> ledger(*final(deps)) == ledger(*old(deps)).with_config(
            ConfigView {
                is_native_allowed: is_native_allowed != 0,
                ..ledger(*old(deps)).settings()
            },
        ),
        res is Err ==> ledger(*final(deps)) == ledger(*old(deps)),
{
    let is_native_allowed = is_native_allowed != 0;

    // Validate the tx sender
    let mut config = match governed_config(&as_ref(deps), &info) {
        Ok(config) => config,
        Err(e) => return Err(e),
    };

    // Save the new state
    config.is_native_allowed = is_native_allowed;
    if let Err(e) = save_config(deps, config) {
        return Err(WrapperError::Std(e));
    }
    proof {
        lemma_attribute_keys();
    }
    let value = flag_to_string(is_native_allowed);
    Ok(report_method("set_native_allowed", "is_native_allowed", value))
}

pub open spec fn update_wrapping_limit_refusal(
    l: Ledger,
    info: MessageInfo,
    new_limit: Seq<char>,
) -> Option<Refusal> {
    match amount_of(new_limit) {
        Err(f) => Some(f),
        Ok(_) => l.governer_refusal(info),
    }
}

/// Sets how much may be issued in all.
pub fn update_wrapping_limit(
    deps: &mut DepsMut<'_>,
    info: MessageInfo,
    new_limit: String,
) -> (res: Result<cosmwasm_std::Response, WrapperError>)
    ensures
        answers(
            res,
            update_wrapping_limit_refusal(ledger(*old(deps)), info, new_limit@),
            method_reply(
                "set_wrapping_limit"@,
                "new_limit"@,
                digits(amount_of(new_limit@)->Ok_0 as nat),
            ),
        ),
        res is Ok ==> ledger(*final(deps)) == ledger(*old(deps)).with_config(
            ConfigView {
                wrapping_limit: amount_of(new_limit@)->Ok_0,
                ..ledger(*old(deps)).settings()
            },
        ),
        res is Err ==> ledger(*final(deps)) == ledger(*old(deps)),
{
    let new_wrapping_limit = match parse_amount(new_limit.as_str()) {
        Ok(limit) => limit,
        Err(e) => return Err(e),
    };

    // Validate the tx sender
    let mut config = match governed_config(&as_ref(deps), &info) {
        Ok(config) => config,
        Err(e) => return Err(e),
    };

    // Save the new limit
    config.wrapping_limit = new_wrapping_limit;
    if let Err(e) = save_config(deps, config) {
        return Err(WrapperError::Std(e));
    }
    proof {
        lemma_attribute_keys();
    }
    Ok(report_method("set_wrapping_limit", "new_limit", number_to_string(new_wrapping_limit)))
}

pub open spec fn update_fee_perc_refusal(
    l: Ledger,
    info: MessageInfo,
    new_fee_perc: Seq<char>,
) -> Option<Refusal> {
    match percentage(new_fee_perc) {
        Err(f) => Some(f),
        Ok(_) => l.governer_refusal(info),
    }
}

/// Sets the fee rate, as a whole percentage.
pub fn update_fee_perc(
    deps: &mut DepsMut<'_>,
    info: MessageInfo,
    new_fee_perc: String,
) -> (res: Result<cosmwasm_std::Response, WrapperError>)
    ensures
        answers(
            res,
            update_fee_perc_refusal(ledger(*old(deps)), info, new_fee_perc@),
            method_reply(
                "set_fee"@,
                "new_fee_perc"@,
                decimal_text(percent(percentage(new_fee_perc@)->Ok_0 as nat)),
            ),
        ),
        res is Ok ==> ledger(*final(deps)) == ledger(*old(deps)).with_config(
            ConfigView {
                fee_percentage: percent(percentage(new_fee_perc@)->Ok_0 as nat) as u128,
                ..ledger(*old(deps)).settings()
            },
        ),
        res is Err ==> ledger(*final(deps)) == ledger(*old(deps)),
{
    let rate = match parse_fee_percentage(new_fee_perc.as_str()) {
        Ok(rate) => rate,
        Err(e) => return Err(e),
    };

    // Validate the tx sender
    let mut config = match governed_config(&as_ref(deps), &info) {
        Ok(config) => config,
        Err(e) => return Err(e),
    };

    // Save the new fee rate
    config.fee_percentage = rate;
    if let Err(e) = save_config(deps, config) {
        return Err(WrapperError::Std(e));
    }
    proof {
        lemma_attribute_keys();
    }
    Ok(report_method("set_fee", "new_fee_perc", decimal_to_string(rate)))
}

pub open spec fn update_fee_recipient_refusal(
    l: Ledger,
    info: MessageInfo,
    new_recipient: Seq<char>,
) -> Option<Refusal> {
    first(by_std(l.address_fault(new_recipient)), l.governer_refusal(info))
}

/// Sets who receives the fees.
pub fn update_fee_recipient(
    deps: &mut DepsMut<'_>,
    info: MessageInfo,
    new_recipient: String,
) -> (res: Result<cosmwasm_std::Response, WrapperError>)
    ensures
        answers(
            res,
            update_fee_recipient_refusal(ledger(*old(deps)), info, new_recipient@),
            method_reply("set_fee_recipient"@, "new_recipient"@, new_recipient@),
        ),
        res is Ok ==> ledger(*final(deps)) == ledger(*old(deps)).with_config(
            ConfigView {
                fee_recipient: new_recipient@,
                ..ledger(*old(deps)).settings()
            },
        ),
        res is Err ==> ledger(*final(deps)) == ledger(*old(deps)),
{
    let new_recipient = match addr_validate(&as_ref(deps), new_recipient.as_str()) {
        Ok(addr) => addr,
        Err(e) => return Err(WrapperError::Std(e)),
    };

    // Validate the tx sender
    let mut config = match governed_config(&as_ref(deps), &info) {
        Ok(config) => config,
        Err(e) => return Err(e),
    };

    // Save the new fee recipient
    config.fee_recipient = new_recipient.clone();
    if let Err(e) = save_config(deps, config) {
        return Err(WrapperError::Std(e));
    }
    proof {
        lemma_attribute_keys();
    }
    Ok(report_method("set_fee_recipient", "new_recipient", new_recipient))
}

/// The refusals of a proposal: only the governer makes one, with the nonce that
/// follows the last.
pub open spec fn proposal_refusal(l: Ledger, info: MessageInfo, nonce: u64) -> Option<Refusal> {
    match l.governer_refusal(info) {
        Some(f) => Some(f),
        None => if nonce != l.settings().proposal_nonce + 1 {
            Some(Refusal::Generic("Nonce must increment by 1"@))
        } else {
            None
        },
    }
}

/// Why a token cannot be added to the wrapping list.
pub open spec fn addable_refusal(l: Ledger, token: Seq<char>) -> Option<Refusal> {
    if !l.addresses.contains(token) {
        by_std(l.address_fault(token))
    } else if l.tokens.contains_key(token) {
        Some(Refusal::Generic("Token must not be valid"@))
    } else {
        None
    }
}

pub open spec fn add_token_refusal(
    l: Ledger,
    info: MessageInfo,
    token: Seq<char>,
    nonce: u64,
) -> Option<Refusal> {
    match addable_refusal(l, token) {
        Some(f) => Some(f),
        None => proposal_refusal(l, info, nonce),
    }
}

/// There is a nonce after the last, where the proposal gets that far.
pub open spec fn add_token_fits(l: Ledger, info: MessageInfo, token: Seq<char>) -> bool {
    addable_refusal(l, token) is None && l.governer_refusal(info) is None
        ==> l.settings().proposal_nonce < u64::MAX
}

/// The ledger once a proposal was carried out that puts the flag of a token.
pub open spec fn proposed(l: Ledger, token: Seq<char>, listed: bool, nonce: u64) -> Ledger {
    Ledger {
        tokens: l.tokens.insert(token, Ok(listed)),
        config: Slot::Holds(ConfigView { proposal_nonce: nonce, ..l.settings() }),
        ..l
    }
}

/// The ledger once a token was added to the wrapping list.
pub open spec fn token_added(l: Ledger, token: Seq<char>, nonce: u64) -> Ledger {
    Ledger {
        historical: l.historical.insert(token, Ok(true)),
        ..proposed(l, token, true, nonce)
    }
}

/// Adds a cw20 token to the wrapping list.
pub fn add_token_addr(
    deps: &mut DepsMut<'_>,
    info: MessageInfo,
    token: String,
    nonce: u64,
) -> (res: Result<cosmwasm_std::Response, WrapperError>)
    requires
        add_token_fits(ledger(*old(deps)), info, token@),
    ensures
        answers(
            res,
            add_token_refusal(ledger(*old(deps)), info, token@, nonce),
            method_reply("add_token"@, "token"@, token@),
        ),
        res is Ok ==> ledger(*final(deps)) == token_added(ledger(*old(deps)), token@, nonce),
        res is Err ==> ledger(*final(deps)) == ledger(*old(deps)),
{
    let token_addr = match addr_validate(&as_ref(deps), token.as_str()) {
        Ok(addr) => addr,
        Err(e) => return Err(WrapperError::Std(e)),
    };
    if has_token(&as_ref(deps), token_addr.as_str()) {
        return Err(generic("Token must not be valid"));
    }

    // Validate the tx sender
    let mut config = match governed_config(&as_ref(deps), &info) {
        Ok(config) => config,
        Err(e) => return Err(e),
    };

    // Validate the nonce
    if nonce != config.proposal_nonce + 1 {
        return Err(generic("Nonce must increment by 1"));
    }

    // Add the token to the wrapping list
    if let Err(e) = save_token(deps, token_addr.as_str(), true) {
        return Err(WrapperError::Std(e));
    }
    if let Err(e) = save_historical(deps, token_addr.as_str(), true) {
        return Err(WrapperError::Std(e));
    }

    // Save the nonce
    config.proposal_nonce = nonce;
    if let Err(e) = save_config(deps, config) {
        return Err(WrapperError::Std(e));
    }
    proof {
        lemma_attribute_keys();
    }
    Ok(report_method("add_token", "token", token_addr))
}

/// Why a token cannot be taken off the wrapping list.
pub open spec fn removable_refusal(l: Ledger, token: Seq<char>) -> Option<Refusal> {
    if !l.addresses.contains(token) {
        by_std(l.address_fault(token))
    } else {
        match slot(l.tokens, token) {
            Slot::Holds(true) => None,
            Slot::Holds(false) => Some(Refusal::Generic("Token must be valid"@)),
            _ => Some(Refusal::NotInitialized),
        }
    }
}

pub open spec fn remove_token_refusal(
    l: Ledger,
    info: MessageInfo,
    token: Seq<char>,
    nonce: u64,
) -> Option<Refusal> {
    match removable_refusal(l, token) {
        Some(f) => Some(f),
        None => proposal_refusal(l, info, nonce),
    }
}

/// There is a nonce after the last, where the proposal gets that far.
pub open spec fn remove_token_fits(l: Ledger, info: MessageInfo, token: Seq<char>) -> bool {
    removable_refusal(l, token) is None && l.governer_refusal(info) is None
        ==> l.settings().proposal_nonce < u64::MAX
}

/// Takes a cw20 token off the wrapping list.
pub fn remove_token_addr(
    deps: &mut DepsMut<'_>,
    info: MessageInfo,
    token: String,
    nonce: u64,
) -> (res: Result<cosmwasm_std::Response, WrapperError>)
    requires
        remove_token_fits(ledger(*old(deps)), info, token@),
    ensures
        answers(
            res,
            remove_token_refusal(ledger(*old(deps)), info, token@, nonce),
            method_reply("remove_token"@, "token"@, token@),
        ),
        res is Ok ==> ledger(*final(deps)) == proposed(ledger(*old(deps)), token@, false, nonce),
        res is Err ==> ledger(*final(deps)) == ledger(*old(deps)),
{
    let token_addr = match addr_validate(&as_ref(deps), token.as_str()) {
        Ok(addr) => addr,
        Err(e) => return Err(WrapperError::Std(e)),
    };
    let is_token_already_invalid = match load_token(&as_ref(deps), token_addr.as_str()) {
        Ok(v) => !v,
        Err(_) => return Err(WrapperError::NotInitialized),
    };
    if is_token_already_invalid {
        return Err(generic("Token must be valid"));
    }

    // Validate the tx sender
    let mut config = match governed_config(&as_ref(deps), &info) {
        Ok(config) => config,
        Err(e) => return Err(e),
    };

    // Validate the nonce
    if nonce != config.proposal_nonce + 1 {
        return Err(generic("Nonce must increment by 1"));
    }

    // Remove the token from the wrapping list
    if let Err(e) = save_token(deps, token_addr.as_str(), false) {
        return Err(WrapperError::Std(e));
    }

    // Save the nonce
    config.proposal_nonce = nonce;
    if let Err(e) = save_config(deps, config) {
        return Err(WrapperError::Std(e));
    }
    proof {
        lemma_attribute_keys();
    }
    Ok(report_method("remove_token", "token", token_addr))
}

} // verus!
