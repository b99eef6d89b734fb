//! The wrapped token: a cw20 token that `cw20_base` runs on the same storage.
//!
//! Of the message that it handles, `cw20_base` looks at the sender, and of its
//! environment at the height and the time of the block: they are what is handed
//! to it. It checks and writes in the order of its steps, and does not take back
//! what it has written when a later step fails: what a refused call leaves in the
//! books is stated along with the refusals.
//!
//! Of a refusal its variant is stated, and of an error of `cosmwasm_std` in it what
//! it says.
use crate::error::{first, in_token, std_fault, token_fault, StdFault, TokenFault};
use crate::msg::{AllowanceResponse, Env, Expiration, TokenInfoResponse};
use crate::reply::{reply_view, saying, Outgoing, ReplyView};
use crate::state::{
    ledger, ledger_seen, slot, AllowanceView, Deps, DepsMut, Ledger, Slot, TokenBook, TokenInfo,
    TokenInfoView,
};
use crate::text::digits;
use cosmwasm_std::{
    Addr, Binary, BlockInfo, ContractInfo, Env as ChainEnv, MessageInfo as ChainInfo, Timestamp,
    Uint128,
};
use cw20::Expiration as Until;
use cw20_base::state::{MinterData, ALLOWANCES, BALANCES, TOKEN_INFO};
use vstd::prelude::*;
use vstd::utf8::encode_utf8;

verus! {

/// An owner whose allowances can be looked up: their place in the storage holds
/// the length of the owner's address in two bytes.
pub open spec fn fits_in_key(owner: Seq<char>) -> bool {
    encode_utf8(owner).len() <= 0xFFFF
}

/// Why `amount` cannot be subtracted: there is not as much.
pub open spec fn subtract_fault(there: u128, amount: u128) -> Option<StdFault> {
    if amount <= there {
        None
    } else {
        Some(StdFault::Overflow { left: digits(there as nat), right: digits(amount as nat) })
    }
}

impl TokenBook {
    /// Whether an account has a balance, or none yet, that can be read.
    pub open spec fn readable(self, who: Seq<char>) -> bool {
        slot(self.balances, who) !is Garbled
    }

    /// The balance of an account.
    pub open spec fn held(self, who: Seq<char>) -> u128 {
        match slot(self.balances, who) {
            Slot::Holds(v) => v,
            _ => 0,
        }
    }

    pub open spec fn with_balance(self, who: Seq<char>, amount: int) -> TokenBook {
        TokenBook { balances: self.balances.insert(who, Ok(amount as u128)), ..self }
    }

    pub open spec fn with_total_supply(self, amount: int) -> TokenBook {
        match self.info {
            Slot::Holds(t) => TokenBook {
                info: Slot::Holds(TokenInfoView { total_supply: amount as u128, ..t }),
                ..self
            },
            _ => self,
        }
    }

    /// What an owner lets a spender spend; nothing, for ever, where nothing is
    /// recorded.
    pub open spec fn allowed(self, owner: Seq<char>, spender: Seq<char>) -> AllowanceView {
        match slot(self.allowances, (owner, spender)) {
            Slot::Holds(a) => a,
            _ => AllowanceView { allowance: 0, expires: Expiration::Never },
        }
    }

    pub open spec fn with_allowance(
        self,
        owner: Seq<char>,
        spender: Seq<char>,
        a: AllowanceView,
    ) -> TokenBook {
        TokenBook { allowances: self.allowances.insert((owner, spender), Ok(a)), ..self }
    }

    pub open spec fn credited(self, who: Seq<char>, amount: u128) -> TokenBook {
        self.with_balance(who, self.held(who) + amount)
    }

    pub open spec fn debited(self, who: Seq<char>, amount: u128) -> TokenBook {
        self.with_balance(who, self.held(who) - amount)
    }

    /// Why `amount` cannot be taken from an account.
    pub open spec fn take_fault(self, from: Seq<char>, amount: u128) -> Option<StdFault> {
        first(slot(self.balances, from).peek_fault(), subtract_fault(self.held(from), amount))
    }

    /// The books once `amount` was taken from an account, if it was there.
    pub open spec fn taken(self, from: Seq<char>, amount: u128) -> TokenBook {
        if self.take_fault(from, amount) is None {
            self.debited(from, amount)
        } else {
            self
        }
    }

    /// Why `amount` cannot go from one account to another.
    pub open spec fn move_fault(self, from: Seq<char>, to: Seq<char>, amount: u128) -> Option<
        StdFault,
    > {
        first(self.take_fault(from, amount), slot(self.balances, to).peek_fault())
    }

    /// Whether the receiving account can hold what it gets.
    pub open spec fn move_fits(self, from: Seq<char>, to: Seq<char>, amount: u128) -> bool {
        self.debited(from, amount).held(to) + amount <= u128::MAX
    }

    pub open spec fn moved(self, from: Seq<char>, to: Seq<char>, amount: u128) -> TokenBook {
        self.debited(from, amount).credited(to, amount)
    }

    /// Why `amount` cannot be destroyed out of an account.
    pub open spec fn destroy_fault(self, from: Seq<char>, amount: u128) -> Option<StdFault> {
        first(
            self.take_fault(from, amount),
            first(self.info.load_fault(), subtract_fault(self.total_supply(), amount)),
        )
    }

    pub open spec fn destroyed(self, from: Seq<char>, amount: u128) -> TokenBook {
        self.debited(from, amount).with_total_supply(self.total_supply() - amount)
    }

    /// Why `amount` cannot be spent: no allowance is recorded, it has ended, or
    /// it does not cover the amount.
    pub open spec fn spend_fault(
        self,
        owner: Seq<char>,
        spender: Seq<char>,
        env: Env,
        amount: u128,
    ) -> Option<TokenFault> {
        match slot(self.allowances, (owner, spender)) {
            Slot::Vacant => Some(TokenFault::NoAllowance),
            Slot::Garbled(msg) => Some(TokenFault::Std(StdFault::ParseErr { msg })),
            Slot::Holds(a) => if a.expires.is_expired(env) {
                Some(TokenFault::Expired)
            } else {
                in_token(subtract_fault(a.allowance, amount))
            },
        }
    }

    pub open spec fn spent(self, owner: Seq<char>, spender: Seq<char>, amount: u128) -> TokenBook {
        let a = self.allowed(owner, spender);
        self.with_allowance(
            owner,
            spender,
            AllowanceView { allowance: (a.allowance - amount) as u128, ..a },
        )
    }

    /// Whether `by` is the minter.
    pub open spec fn is_minter(self, by: Seq<char>) -> bool {
        &&& self.info matches Slot::Holds(t)
        &&& t.mint matches Some(m)
        &&& m.0 == by
    }

    pub open spec fn total_supply(self) -> u128 {
        match self.info {
            Slot::Holds(t) => t.total_supply,
            _ => 0,
        }
    }

    /// Whether the total supply may grow by `amount`.
    pub open spec fn within_cap(self, amount: u128) -> bool {
        &&& self.info matches Slot::Holds(t)
        &&& t.mint matches Some(m)
        &&& m.1 matches Some(cap) ==> t.total_supply + amount <= cap
    }

    pub open spec fn minted(self, to: Seq<char>, amount: u128) -> TokenBook {
        self.credited(to, amount).with_total_supply(self.total_supply() + amount)
    }
}

impl Ledger {
    /// Why a text cannot be used as an address.
    pub open spec fn address_fault(self, text: Seq<char>) -> Option<StdFault> {
        if self.addresses.contains(text) {
            None
        } else {
            Some(self.refused[text])
        }
    }

    /// Why `by` cannot mint `amount` for `to`.
    pub open spec fn mint_fault(self, by: Seq<char>, to: Seq<char>, amount: u128) -> Option<
        TokenFault,
    > {
        if amount == 0 {
            Some(TokenFault::InvalidZeroAmount)
        } else if self.token.info !is Holds {
            in_token(self.token.info.load_fault())
        } else if !self.token.is_minter(by) {
            Some(TokenFault::Unauthorized)
        } else if !self.token.within_cap(amount) {
            Some(TokenFault::CannotExceedCap)
        } else {
            in_token(self.balance_fault(to))
        }
    }

    /// Minting adds to the total supply and to a balance. Where it gets to either,
    /// the sum fits.
    pub open spec fn mint_fits(self, by: Seq<char>, to: Seq<char>, amount: u128) -> bool {
        &&& amount > 0 && self.token.is_minter(by) ==> self.token.total_supply() + amount
            <= u128::MAX
        &&& self.mint_fault(by, to, amount) is None ==> self.token.held(to) + amount <= u128::MAX
    }

    /// The books after a refused mint: the total supply grows before the
    /// recipient is looked at.
    pub open spec fn mint_leaves(self, by: Seq<char>, amount: u128) -> TokenBook {
        if amount > 0 && self.token.is_minter(by) && self.token.within_cap(amount) {
            self.token.with_total_supply(self.token.total_supply() + amount)
        } else {
            self.token
        }
    }

    /// Why `amount` cannot be transferred.
    pub open spec fn transfer_fault(self, from: Seq<char>, to: Seq<char>, amount: u128) -> Option<
        TokenFault,
    > {
        if amount == 0 {
            Some(TokenFault::InvalidZeroAmount)
        } else {
            in_token(first(self.address_fault(to), self.token.move_fault(from, to, amount)))
        }
    }

    pub open spec fn transfer_fits(self, from: Seq<char>, to: Seq<char>, amount: u128) -> bool {
        self.transfer_fault(from, to, amount) is None ==> self.token.move_fits(from, to, amount)
    }

    /// The books after a refused transfer: the amount is taken before the balance
    /// of the recipient is looked at.
    pub open spec fn transfer_leaves(
        self,
        from: Seq<char>,
        to: Seq<char>,
        amount: u128,
    ) -> TokenBook {
        if amount > 0 && self.addresses.contains(to) {
            self.token.taken(from, amount)
        } else {
            self.token
        }
    }

    /// Why `amount` cannot be burned.
    pub open spec fn burn_fault(self, from: Seq<char>, amount: u128) -> Option<TokenFault> {
        if amount == 0 {
            Some(TokenFault::InvalidZeroAmount)
        } else {
            in_token(self.token.destroy_fault(from, amount))
        }
    }

    /// The books after a refused burn: the amount is taken before the total supply
    /// is looked at.
    pub open spec fn burn_leaves(self, from: Seq<char>, amount: u128) -> TokenBook {
        if amount > 0 {
            self.token.taken(from, amount)
        } else {
            self.token
        }
    }

    /// Why an owner cannot give an allowance to `spender` at all.
    pub open spec fn spender_fault(self, owner: Seq<char>, spender: Seq<char>) -> Option<
        TokenFault,
    > {
        if !self.addresses.contains(spender) {
            in_token(self.address_fault(spender))
        } else if spender == owner {
            Some(TokenFault::CannotSetOwnAccount)
        } else {
            None
        }
    }

    /// Why an allowance cannot be raised.
    pub open spec fn increase_fault(self, owner: Seq<char>, spender: Seq<char>) -> Option<
        TokenFault,
    > {
        first(
            self.spender_fault(owner, spender),
            in_token(slot(self.token.allowances, (owner, spender)).peek_fault()),
        )
    }

    /// The place of the allowance has a key, and the raised allowance fits.
    pub open spec fn increase_fits(
        self,
        owner: Seq<char>,
        spender: Seq<char>,
        amount: u128,
    ) -> bool {
        &&& self.spender_fault(owner, spender) is None ==> fits_in_key(owner)
        &&& self.increase_fault(owner, spender) is None ==> self.token.allowed(
            owner,
            spender,
        ).allowance + amount <= u128::MAX
    }

    /// Why an allowance cannot be lowered.
    pub open spec fn decrease_fault(self, owner: Seq<char>, spender: Seq<char>) -> Option<
        TokenFault,
    > {
        first(
            self.spender_fault(owner, spender),
            in_token(slot(self.token.allowances, (owner, spender)).load_fault()),
        )
    }

    /// The place of the allowance has a key.
    pub open spec fn decrease_fits(self, owner: Seq<char>, spender: Seq<char>) -> bool {
        self.spender_fault(owner, spender) is None ==> fits_in_key(owner)
    }

    pub open spec fn names_both(self, owner: Seq<char>, other: Seq<char>) -> bool {
        self.addresses.contains(owner) && self.addresses.contains(other)
    }

    /// Why a spender cannot transfer `amount` of an owner's tokens.
    pub open spec fn transfer_from_fault(
        self,
        owner: Seq<char>,
        spender: Seq<char>,
        to: Seq<char>,
        env: Env,
        amount: u128,
    ) -> Option<TokenFault> {
        first(
            in_token(first(self.address_fault(to), self.address_fault(owner))),
            first(
                self.token.spend_fault(owner, spender, env, amount),
                in_token(self.token.move_fault(owner, to, amount)),
            ),
        )
    }

    pub open spec fn transfer_from_fits(
        self,
        owner: Seq<char>,
        spender: Seq<char>,
        to: Seq<char>,
        env: Env,
        amount: u128,
    ) -> bool {
        &&& self.names_both(owner, to) ==> fits_in_key(owner)
        &&& self.transfer_from_fault(owner, spender, to, env, amount) is None
            ==> self.token.move_fits(owner, to, amount)
    }

    /// The books after a refused transfer of an owner's tokens: the allowance is
    /// spent first, and the amount is taken before the balance of the recipient
    /// is looked at.
    pub open spec fn transfer_from_leaves(
        self,
        owner: Seq<char>,
        spender: Seq<char>,
        to: Seq<char>,
        env: Env,
        amount: u128,
    ) -> TokenBook {
        if self.names_both(owner, to)
            && self.token.spend_fault(owner, spender, env, amount) is None {
            self.token.spent(owner, spender, amount).taken(owner, amount)
        } else {
            self.token
        }
    }

    /// Why a spender cannot burn `amount` of an owner's tokens.
    pub open spec fn burn_from_fault(
        self,
        owner: Seq<char>,
        spender: Seq<char>,
        env: Env,
        amount: u128,
    ) -> Option<TokenFault> {
        first(
            in_token(self.address_fault(owner)),
            first(
                self.token.spend_fault(owner, spender, env, amount),
                in_token(self.token.destroy_fault(owner, amount)),
            ),
        )
    }

    /// The books after a refused burn of an owner's tokens: the allowance is spent
    /// first, and the amount is taken before the total supply is looked at.
    pub open spec fn burn_from_leaves(
        self,
        owner: Seq<char>,
        spender: Seq<char>,
        env: Env,
        amount: u128,
    ) -> TokenBook {
        if self.addresses.contains(owner)
            && self.token.spend_fault(owner, spender, env, amount) is None {
            self.token.spent(owner, spender, amount).taken(owner, amount)
        } else {
            self.token
        }
    }

    /// Why a balance cannot be shown.
    pub open spec fn balance_fault(self, who: Seq<char>) -> Option<StdFault> {
        first(self.address_fault(who), slot(self.token.balances, who).peek_fault())
    }

    /// Why an allowance cannot be shown.
    pub open spec fn allowance_fault(self, owner: Seq<char>, spender: Seq<char>) -> Option<
        StdFault,
    > {
        first(
            first(self.address_fault(owner), self.address_fault(spender)),
            slot(self.token.allowances, (owner, spender)).peek_fault(),
        )
    }

    /// The same ledger with other books of the token.
    pub open spec fn with_token(self, token: TokenBook) -> Ledger {
        Ledger { token, ..self }
    }
}

/// The allowance after it was raised by `amount`.
pub open spec fn raised(
    a: AllowanceView,
    amount: u128,
    expires: Option<Expiration>,
) -> AllowanceView {
    AllowanceView {
        allowance: (a.allowance + amount) as u128,
        expires: match expires {
            Some(e) => e,
            None => a.expires,
        },
    }
}

/// The books after an allowance was lowered by `amount`; it is forgotten where
/// nothing is left of it.
pub open spec fn lowered(
    book: TokenBook,
    owner: Seq<char>,
    spender: Seq<char>,
    amount: u128,
    expires: Option<Expiration>,
) -> TokenBook {
    let a = book.allowed(owner, spender);
    if amount < a.allowance {
        book.with_allowance(
            owner,
            spender,
            AllowanceView {
                allowance: (a.allowance - amount) as u128,
                expires: match expires {
                    Some(e) => e,
                    None => a.expires,
                },
            },
        )
    } else {
        TokenBook { allowances: book.allowances.remove((owner, spender)), ..book }
    }
}

/// How the token answers: with an error that says the fault, if there is one, else
/// with the reply.
pub open spec fn replies(
    res: Result<cosmwasm_std::Response, cw20_base::ContractError>,
    fault: Option<TokenFault>,
    reply: ReplyView,
) -> bool {
    match fault {
        Some(f) => res matches Err(e) && token_fault(e) == f,
        None => res matches Ok(r) && reply_view(r) == reply,
    }
}

/// The bytes that tell a contract that `sender` has sent it `amount`, with the
/// payload `msg`.
pub uninterp spec fn receive_payload(sender: Seq<char>, amount: u128, msg: Seq<u8>) -> Seq<u8>;

/// `cw20_base::contract::execute_mint`: on success the total supply and the
/// balance of the recipient grow by `amount`. It panics where one of them would
/// not fit.
#[verifier::external_body]
pub(crate) fn execute_mint(
    deps: &mut DepsMut<'_>,
    env: &Env,
    sender: &str,
    recipient: String,
    amount: u128,
) -> (res: Result<cosmwasm_std::Response, cw20_base::ContractError>)
    requires
        ledger(*old(deps)).mint_fits(sender@, recipient@, amount),
    ensures
        replies(
            res,
            ledger(*old(deps)).mint_fault(sender@, recipient@, amount),
            saying(
                Seq::<Outgoing>::empty(),
                seq![
                    ("action"@, "mint"@),
                    ("to"@, recipient@),
                    ("amount"@, digits(amount as nat)),
                ],
            ),
        ),
        res is Ok ==> ledger(*final(deps)) == ledger(*old(deps)).with_token(
            ledger(*old(deps)).token.minted(recipient@, amount),
        ),
        res is Err ==> ledger(*final(deps)) == ledger(*old(deps)).with_token(
            ledger(*old(deps)).mint_leaves(sender@, amount),
        ),
{
    let time = Timestamp::from_nanos(env.time);
    let block = BlockInfo { height: env.height, time, chain_id: String::new() };
    let home = ContractInfo { address: Addr::unchecked(env.contract.clone()) };
    let env = ChainEnv { block, transaction: None, contract: home };
    let info = ChainInfo { sender: Addr::unchecked(sender), funds: vec![] };
    let amount = Uint128::new(amount);
    cw20_base::contract::execute_mint(deps.inner.branch(), env, info, recipient, amount)
}

/// `cw20_base::contract::execute_burn`: on success the total supply and the
/// balance of the sender shrink by `amount`.
#[verifier::external_body]
pub(crate) fn execute_burn(
    deps: &mut DepsMut<'_>,
    env: &Env,
    sender: &str,
    amount: u128,
) -> (res: Result<cosmwasm_std::Response, cw20_base::ContractError>)
    ensures
        replies(
            res,
            ledger(*old(deps)).burn_fault(sender@, amount),
            saying(
                Seq::<Outgoing>::empty(),
                seq![
                    ("action"@, "burn"@),
                    ("from"@, sender@),
                    ("amount"@, digits(amount as nat)),
                ],
            ),
        ),
        res is Ok ==> ledger(*final(deps)) == ledger(*old(deps)).with_token(
            ledger(*old(deps)).token.destroyed(sender@, amount),
        ),
        res is Err ==> ledger(*final(deps)) == ledger(*old(deps)).with_token(
            ledger(*old(deps)).burn_leaves(sender@, amount),
        ),
{
    let time = Timestamp::from_nanos(env.time);
    let block = BlockInfo { height: env.height, time, chain_id: String::new() };
    let home = ContractInfo { address: Addr::unchecked(env.contract.clone()) };
    let env = ChainEnv { block, transaction: None, contract: home };
    let info = ChainInfo { sender: Addr::unchecked(sender), funds: vec![] };
    cw20_base::contract::execute_burn(deps.inner.branch(), env, info, Uint128::new(amount))
}

/// `cw20_base::contract::execute_transfer`: on success `amount` goes from the
/// sender to the recipient. It panics where the balance of the recipient would
/// not fit.
#[verifier::external_body]
pub(crate) fn execute_transfer(
    deps: &mut DepsMut<'_>,
    env: &Env,
    sender: &str,
    recipient: String,
    amount: u128,
) -> (res: Result<cosmwasm_std::Response, cw20_base::ContractError>)
    requires
        ledger(*old(deps)).transfer_fits(sender@, recipient@, amount),
    ensures
        replies(
            res,
            ledger(*old(deps)).transfer_fault(sender@, recipient@, amount),
            saying(
                Seq::<Outgoing>::empty(),
                seq![
                    ("action"@, "transfer"@),
                    ("from"@, sender@),
                    ("to"@, recipient@),
                    ("amount"@, digits(amount as nat)),
                ],
            ),
        ),
        res is Ok ==> ledger(*final(deps)) == ledger(*old(deps)).with_token(
            ledger(*old(deps)).token.moved(sender@, recipient@, amount),
        ),
        res is Err ==> ledger(*final(deps)) == ledger(*old(deps)).with_token(
            ledger(*old(deps)).transfer_leaves(sender@, recipient@, amount),
        ),
{
    let time = Timestamp::from_nanos(env.time);
    let block = BlockInfo { height: env.height, time, chain_id: String::new() };
    let home = ContractInfo { address: Addr::unchecked(env.contract.clone()) };
    let env = ChainEnv { block, transaction: None, contract: home };
    let info = ChainInfo { sender: Addr::unchecked(sender), funds: vec![] };
    let amount = Uint128::new(amount);
    cw20_base::contract::execute_transfer(deps.inner.branch(), env, info, recipient, amount)
}

/// `cw20_base::contract::execute_send`: as a transfer to the contract, which is
/// called with the bytes that `cw20::Cw20ReceiveMsg::into_cosmos_msg` writes;
/// they hold texts, a number and bytes, for which the JSON writer has no way to
/// fail. It panics where the balance of the contract would not fit.
#[verifier::external_body]
pub(crate) fn execute_send(
    deps: &mut DepsMut<'_>,
    env: &Env,
    sender: &str,
    contract: String,
    amount: u128,
    msg: Vec<u8>,
) -> (res: Result<cosmwasm_std::Response, cw20_base::ContractError>)
    requires
        ledger(*old(deps)).transfer_fits(sender@, contract@, amount),
    ensures
        replies(
            res,
            ledger(*old(deps)).transfer_fault(sender@, contract@, amount),
            saying(
                seq![
                    Outgoing::WasmExecute {
                        contract: contract@,
                        msg: receive_payload(sender@, amount, msg@),
                    },
                ],
                seq![
                    ("action"@, "send"@),
                    ("from"@, sender@),
                    ("to"@, contract@),
                    ("amount"@, digits(amount as nat)),
                ],
            ),
        ),
        res is Ok ==> ledger(*final(deps)) == ledger(*old(deps)).with_token(
            ledger(*old(deps)).token.moved(sender@, contract@, amount),
        ),
        res is Err ==> ledger(*final(deps)) == ledger(*old(deps)).with_token(
            ledger(*old(deps)).transfer_leaves(sender@, contract@, amount),
        ),
{
    let time = Timestamp::from_nanos(env.time);
    let block = BlockInfo { height: env.height, time, chain_id: String::new() };
    let home = ContractInfo { address: Addr::unchecked(env.contract.clone()) };
    let env = ChainEnv { block, transaction: None, contract: home };
    let info = ChainInfo { sender: Addr::unchecked(sender), funds: vec![] };
    let (amount, msg) = (Uint128::new(amount), Binary(msg));
    cw20_base::contract::execute_send(deps.inner.branch(), env, info, contract, amount, msg)
}

/// `cw20_base::allowances::execute_increase_allowance`: on success the
/// allowance of the spender grows by `amount`, and ends when `expires` says,
/// where it does. It panics where the allowance would not fit, and where the
/// address of the sender is too long for a key.
#[verifier::external_body]
pub(crate) fn execute_increase_allowance(
    deps: &mut DepsMut<'_>,
    env: &Env,
    sender: &str,
    spender: String,
    amount: u128,
    expires: Option<Expiration>,
) -> (res: Result<cosmwasm_std::Response, cw20_base::ContractError>)
    requires
        ledger(*old(deps)).increase_fits(sender@, spender@, amount),
    ensures
        replies(
            res,
            ledger(*old(deps)).increase_fault(sender@, spender@),
            saying(
                Seq::<Outgoing>::empty(),
                seq![
                    ("action"@, "increase_allowance"@),
                    ("owner"@, sender@),
                    ("spender"@, spender@),
                    ("amount"@, digits(amount as nat)),
                ],
            ),
        ),
        res is Ok ==> ledger(*final(deps)) == ledger(*old(deps)).with_token(
            ledger(*old(deps)).token.with_allowance(
                sender@,
                spender@,
                raised(ledger(*old(deps)).token.allowed(sender@, spender@), amount, expires),
            ),
        ),
        res is Err ==> ledger(*final(deps)) == ledger(*old(deps)).with_token(
            ledger(*old(deps)).token,
        ),
{
    let time = Timestamp::from_nanos(env.time);
    let block = BlockInfo { height: env.height, time, chain_id: String::new() };
    let home = ContractInfo { address: Addr::unchecked(env.contract.clone()) };
    let env = ChainEnv { block, transaction: None, contract: home };
    let info = ChainInfo { sender: Addr::unchecked(sender), funds: vec![] };
    let expires = expires.map(
        |e|
            match e {
                Expiration::AtHeight(h) => Until::AtHeight(h),
                Expiration::AtTime(t) => Until::AtTime(Timestamp::from_nanos(t)),
                Expiration::Never => Until::Never {  },
            },
    );
    let (deps, amount) = (deps.inner.branch(), Uint128::new(amount));
    cw20_base::allowances::execute_increase_allowance(deps, env, info, spender, amount, expires)
}

/// `cw20_base::allowances::execute_decrease_allowance`: on success the
/// allowance of the spender shrinks by `amount`, and ends when `expires` says,
/// where it does; an allowance of which nothing is left is forgotten. It panics
/// where the address of the sender is too long for a key.
#[verifier::external_body]
pub(crate) fn execute_decrease_allowance(
    deps: &mut DepsMut<'_>,
    env: &Env,
    sender: &str,
    spender: String,
    amount: u128,
    expires: Option<Expiration>,
) -> (res: Result<cosmwasm_std::Response, cw20_base::ContractError>)
    requires
        ledger(*old(deps)).decrease_fits(sender@, spender@),
    ensures
        replies(
            res,
            ledger(*old(deps)).decrease_fault(sender@, spender@),
            saying(
                Seq::<Outgoing>::empty(),
                seq![
                    ("action"@, "decrease_allowance"@),
                    ("owner"@, sender@),
                    ("spender"@, spender@),
                    ("amount"@, digits(amount as nat)),
                ],
            ),
        ),
        res is Ok ==> ledger(*final(deps)) == ledger(*old(deps)).with_token(
            lowered(ledger(*old(deps)).token, sender@, spender@, amount, expires),
        ),
        res is Err ==> ledger(*final(deps)) == ledger(*old(deps)).with_token(
            ledger(*old(deps)).token,
        ),
{
    let time = Timestamp::from_nanos(env.time);
    let block = BlockInfo { height: env.height, time, chain_id: String::new() };
    let home = ContractInfo { address: Addr::unchecked(env.contract.clone()) };
    let env = ChainEnv { block, transaction: None, contract: home };
    let info = ChainInfo { sender: Addr::unchecked(sender), funds: vec![] };
    let expires = expires.map(
        |e|
            match e {
                Expiration::AtHeight(h) => Until::AtHeight(h),
                Expiration::AtTime(t) => Until::AtTime(Timestamp::from_nanos(t)),
                Expiration::Never => Until::Never {  },
            },
    );
    let (deps, amount) = (deps.inner.branch(), Uint128::new(amount));
    cw20_base::allowances::execute_decrease_allowance(deps, env, info, spender, amount, expires)
}

/// `cw20_base::allowances::execute_transfer_from`: on success `amount` goes
/// from the owner to the recipient and off the allowance of the sender. It
/// panics where the balance of the recipient would not fit, and where the
/// address of the owner is too long for a key.
#[verifier::external_body]
pub(crate) fn execute_transfer_from(
    deps: &mut DepsMut<'_>,
    env: &Env,
    sender: &str,
    owner: String,
    recipient: String,
    amount: u128,
) -> (res: Result<cosmwasm_std::Response, cw20_base::ContractError>)
    requires
        ledger(*old(deps)).transfer_from_fits(owner@, sender@, recipient@, *env, amount),
    ensures
        replies(
            res,
            ledger(*old(deps)).transfer_from_fault(owner@, sender@, recipient@, *env, amount),
            saying(
                Seq::<Outgoing>::empty(),
                seq![
                    ("action"@, "transfer_from"@),
                    ("from"@, owner@),
                    ("to"@, recipient@),
                    ("by"@, sender@),
                    ("amount"@, digits(amount as nat)),
                ],
            ),
        ),
        res is Ok ==> ledger(*final(deps)) == ledger(*old(deps)).with_token(
            ledger(*old(deps)).token.spent(owner@, sender@, amount).moved(owner@, recipient@, amount),
        ),
        res is Err ==> ledger(*final(deps)) == ledger(*old(deps)).with_token(
            ledger(*old(deps)).transfer_from_leaves(owner@, sender@, recipient@, *env, amount),
        ),
{
    let time = Timestamp::from_nanos(env.time);
    let block = BlockInfo { height: env.height, time, chain_id: String::new() };
    let home = ContractInfo { address: Addr::unchecked(env.contract.clone()) };
    let env = ChainEnv { block, transaction: None, contract: home };
    let info = ChainInfo { sender: Addr::unchecked(sender), funds: vec![] };
    let (deps, amount) = (deps.inner.branch(), Uint128::new(amount));
    cw20_base::allowances::execute_transfer_from(deps, env, info, owner, recipient, amount)
}

/// `cw20_base::allowances::execute_burn_from`: on success the total supply, the
/// balance of the owner and the allowance of the sender shrink by `amount`. It
/// panics where the address of the owner is too long for a key.
#[verifier::external_body]
pub(crate) fn execute_burn_from(
    deps: &mut DepsMut<'_>,
    env: &Env,
    sender: &str,
    owner: String,
    amount: u128,
) -> (res: Result<cosmwasm_std::Response, cw20_base::ContractError>)
    requires
        ledger(*old(deps)).addresses.contains(owner@) ==> fits_in_key(owner@),
    ensures
        replies(
            res,
            ledger(*old(deps)).burn_from_fault(owner@, sender@, *env, amount),
            saying(
                Seq::<Outgoing>::empty(),
                seq![
                    ("action"@, "burn_from"@),
                    ("from"@, owner@),
                    ("by"@, sender@),
                    ("amount"@, digits(amount as nat)),
                ],
            ),
        ),
        res is Ok ==> ledger(*final(deps)) == ledger(*old(deps)).with_token(
            ledger(*old(deps)).token.spent(owner@, sender@, amount).destroyed(owner@, amount),
        ),
        res is Err ==> ledger(*final(deps)) == ledger(*old(deps)).with_token(
            ledger(*old(deps)).burn_from_leaves(owner@, sender@, *env, amount),
        ),
{
    let time = Timestamp::from_nanos(env.time);
    let block = BlockInfo { height: env.height, time, chain_id: String::new() };
    let home = ContractInfo { address: Addr::unchecked(env.contract.clone()) };
    let env = ChainEnv { block, transaction: None, contract: home };
    let info = ChainInfo { sender: Addr::unchecked(sender), funds: vec![] };
    let (deps, amount) = (deps.inner.branch(), Uint128::new(amount));
    cw20_base::allowances::execute_burn_from(deps, env, info, owner, amount)
}

/// `cw20_base::allowances::execute_send_from`: as a transfer from the owner to
/// the contract, which is called with the bytes that
/// `cw20::Cw20ReceiveMsg::into_cosmos_msg` writes; they hold texts, a number
/// and bytes, for which the JSON writer has no way to fail. It panics where the
/// balance of the contract would not fit, and where the address of the owner is
/// too long for a key.
#[verifier::external_body]
pub(crate) fn execute_send_from(
    deps: &mut DepsMut<'_>,
    env: &Env,
    sender: &str,
    owner: String,
    contract: String,
    amount: u128,
    msg: Vec<u8>,
) -> (res: Result<cosmwasm_std::Response, cw20_base::ContractError>)
    requires
        ledger(*old(deps)).transfer_from_fits(owner@, sender@, contract@, *env, amount),
    ensures
        replies(
            res,
            ledger(*old(deps)).transfer_from_fault(owner@, sender@, contract@, *env, amount),
            saying(
                seq![
                    Outgoing::WasmExecute {
                        contract: contract@,
                        msg: receive_payload(sender@, amount, msg@),
                    },
                ],
                seq![
                    ("action"@, "send_from"@),
                    ("from"@, owner@),
                    ("to"@, contract@),
                    ("by"@, sender@),
                    ("amount"@, digits(amount as nat)),
                ],
            ),
        ),
        res is Ok ==> ledger(*final(deps)) == ledger(*old(deps)).with_token(
            ledger(*old(deps)).token.spent(owner@, sender@, amount).moved(owner@, contract@, amount),
        ),
        res is Err ==> ledger(*final(deps)) == ledger(*old(deps)).with_token(
            ledger(*old(deps)).transfer_from_leaves(owner@, sender@, contract@, *env, amount),
        ),
{
    let time = Timestamp::from_nanos(env.time);
    let block = BlockInfo { height: env.height, time, chain_id: String::new() };
    let home = ContractInfo { address: Addr::unchecked(env.contract.clone()) };
    let env = ChainEnv { block, transaction: None, contract: home };
    let info = ChainInfo { sender: Addr::unchecked(sender), funds: vec![] };
    let (deps, amount, msg) = (deps.inner.branch(), Uint128::new(amount), Binary(msg));
    cw20_base::allowances::execute_send_from(deps, env, info, owner, contract, amount, msg)
}

/// `cw20_base::contract::query_token_info`: what the token records of itself,
/// but for who may mint it. Where the record cannot be loaded, the error says why.
#[verifier::external_body]
pub(crate) fn query_token_info(deps: &Deps<'_>) -> (res: Result<
    TokenInfoResponse,
    cosmwasm_std::StdError,
>)
    ensures
        match ledger_seen(*deps).token.info {
            Slot::Holds(t) => {
                &&& res matches Ok(r)
                &&& r.name@ == t.name
                &&& r.symbol@ == t.symbol
                &&& r.decimals == t.decimals
                &&& r.total_supply == t.total_supply
            },
            s => res matches Err(e) && s.load_fault() == Some(std_fault(e)),
        },
{
    let r = cw20_base::contract::query_token_info(deps.inner)?;
    let total_supply = r.total_supply.u128();
    Ok(TokenInfoResponse { name: r.name, symbol: r.symbol, decimals: r.decimals, total_supply })
}

/// `cw20_base::contract::query_balance`: the balance of an accepted address, zero
/// where none is stored. Where one is stored that does not decode, the error says
/// why; for another address it is the one that the chain gives.
#[verifier::external_body]
pub(crate) fn query_balance(deps: &Deps<'_>, address: String) -> (res: Result<
    u128,
    cosmwasm_std::StdError,
>)
    ensures
        match ledger_seen(*deps).balance_fault(address@) {
            Some(f) => res matches Err(e) && std_fault(e) == f,
            None => res matches Ok(v) && v == ledger_seen(*deps).token.held(address@),
        },
{
    cw20_base::contract::query_balance(deps.inner, address).map(|r| r.balance.u128())
}

/// `cw20_base::allowances::query_allowance`: the allowance that is recorded for
/// two accepted addresses, or nothing for ever. Where one is recorded that does not
/// decode, the error says why; for other addresses it is the one that the chain
/// gives. It panics where the address of the owner is too long for a key.
#[verifier::external_body]
pub(crate) fn query_allowance(deps: &Deps<'_>, owner: String, spender: String) -> (res: Result<
    AllowanceResponse,
    cosmwasm_std::StdError,
>)
    requires
        ledger_seen(*deps).names_both(owner@, spender@) ==> fits_in_key(owner@),
    ensures
        match ledger_seen(*deps).allowance_fault(owner@, spender@) {
            Some(f) => res matches Err(e) && std_fault(e) == f,
            None => res matches Ok(r) && ledger_seen(*deps).token.allowed(owner@, spender@) == (
            AllowanceView { allowance: r.allowance, expires: r.expires }),
        },
{
    let r = cw20_base::allowances::query_allowance(deps.inner, owner, spender)?;
    let expires = match r.expires {
        Until::AtHeight(h) => Expiration::AtHeight(h),
        Until::AtTime(t) => Expiration::AtTime(t.nanos()),
        Until::Never {  } => Expiration::Never,
    };
    Ok(AllowanceResponse { allowance: r.allowance.u128(), expires })
}

/// `cw_storage_plus::Item::save` on `cw20_base::state::TOKEN_INFO`: the record
/// replaces what was stored. For texts and numbers the JSON writer has no way to
/// fail.
#[verifier::external_body]
pub(crate) fn save_token_info(deps: &mut DepsMut<'_>, t: TokenInfo) -> (res: Result<
    (),
    cosmwasm_std::StdError,
>)
    ensures
        res is Ok,
        ledger(*final(deps)) == ledger(*old(deps)).with_token(
            TokenBook { info: Slot::Holds(t@), ..ledger(*old(deps)).token },
        ),
{
    let mint = t.mint.map(
        |m| MinterData { minter: Addr::unchecked(m.minter), cap: m.cap.map(Uint128::new) },
    );
    let data = cw20_base::state::TokenInfo {
        name: t.name,
        symbol: t.symbol,
        decimals: t.decimals,
        total_supply: Uint128::new(t.total_supply),
        mint,
    };
    TOKEN_INFO.save(deps.inner.storage, &data)
}

/// `cw_storage_plus::Item::load` on `cw20_base::state::TOKEN_INFO`: it succeeds
/// where a record is stored.
#[verifier::external_body]
pub(crate) fn load_token_info(deps: &Deps<'_>) -> (res: Result<TokenInfo, cosmwasm_std::StdError>)
    ensures
        match res {
            Ok(t) => ledger_seen(*deps).token.info == Slot::Holds(t@),
            Err(e) => ledger_seen(*deps).token.info.load_fault() == Some(std_fault(e)),
        },
{
    let t = TOKEN_INFO.load(deps.inner.storage)?;
    let total_supply = t.total_supply.u128();
    let mint = t.mint.map(
        |m|
            crate::state::MinterData { minter: m.minter.into_string(), cap: m.cap.map(|c| c.u128()) },
    );
    Ok(TokenInfo { name: t.name, symbol: t.symbol, decimals: t.decimals, total_supply, mint })
}

/// `cw_storage_plus::Map::may_load` on `cw20_base::state::BALANCES`: the stored
/// balance, if any; it fails where one is stored that cannot be read.
#[verifier::external_body]
pub(crate) fn load_balance(deps: &Deps<'_>, who: &str) -> (res: Result<
    Option<u128>,
    cosmwasm_std::StdError,
>)
    ensures
        match res {
            Ok(Some(v)) => slot(ledger_seen(*deps).token.balances, who@) == Slot::Holds(v),
            Ok(None) => slot(ledger_seen(*deps).token.balances, who@) is Vacant,
            Err(e) => slot(ledger_seen(*deps).token.balances, who@).peek_fault() == Some(
                std_fault(e),
            ),
        },
{
    let stored = BALANCES.may_load(deps.inner.storage, &Addr::unchecked(who))?;
    Ok(stored.map(|v| v.u128()))
}

/// `cw_storage_plus::Map::may_load` on `cw20_base::state::ALLOWANCES`: the stored
/// allowance, if any; it fails where one is stored that cannot be read. It
/// panics where the address of the owner is too long for a key.
#[verifier::external_body]
pub(crate) fn load_allowance(deps: &Deps<'_>, owner: &str, spender: &str) -> (res: Result<
    Option<AllowanceResponse>,
    cosmwasm_std::StdError,
>)
    requires
        fits_in_key(owner@),
    ensures
        match res {
            Ok(Some(r)) => slot(ledger_seen(*deps).token.allowances, (owner@, spender@))
                == Slot::Holds(AllowanceView { allowance: r.allowance, expires: r.expires }),
            Ok(None) => slot(ledger_seen(*deps).token.allowances, (owner@, spender@)) is Vacant,
            Err(e) => slot(ledger_seen(*deps).token.allowances, (owner@, spender@)).peek_fault()
                == Some(std_fault(e)),
        },
{
    let (owner, spender) = (Addr::unchecked(owner), Addr::unchecked(spender));
    let stored = ALLOWANCES.may_load(deps.inner.storage, (&owner, &spender))?;
    let plain = |r: cw20::AllowanceResponse|
        {
            let expires = match r.expires {
                Until::AtHeight(h) => Expiration::AtHeight(h),
                Until::AtTime(t) => Expiration::AtTime(t.nanos()),
                Until::Never {  } => Expiration::Never,
            };
            AllowanceResponse { allowance: r.allowance.u128(), expires }
        };
    Ok(stored.map(plain))
}

} // verus!
