//! What the contract keeps in the storage of the chain.
use crate::error::{std_fault, StdFault};
use crate::msg::Expiration;
use cosmwasm_std::{Addr, Decimal, Uint128};
use cw_storage_plus::{Item, Map as StorageMap};
use vstd::prelude::*;

verus! {

/// The settings of the contract.
#[derive(Debug)]
pub struct Config {
    pub governer: String,
    pub fee_recipient: String,
    /// The fee rate, in atomic units of which `DECIMAL_ONE` make the whole.
    pub fee_percentage: u128,
    pub native_token_denom: String,
    pub is_native_allowed: bool,
    pub wrapping_limit: u128,
    pub proposal_nonce: u64,
}

pub struct ConfigView {
    pub governer: Seq<char>,
    pub fee_recipient: Seq<char>,
    pub fee_percentage: u128,
    pub native_token_denom: Seq<char>,
    pub is_native_allowed: bool,
    pub wrapping_limit: u128,
    pub proposal_nonce: u64,
}

impl View for Config {
    type V = ConfigView;

    open spec fn view(&self) -> ConfigView {
        ConfigView {
            governer: self.governer@,
            fee_recipient: self.fee_recipient@,
            fee_percentage: self.fee_percentage,
            native_token_denom: self.native_token_denom@,
            is_native_allowed: self.is_native_allowed,
            wrapping_limit: self.wrapping_limit,
            proposal_nonce: self.proposal_nonce,
        }
    }
}

/// How much of the wrapped token this contract has issued against deposits.
#[derive(Debug)]
pub struct Supply {
    pub issued: u128,
}

impl Default for Supply {
    fn default() -> (s: Self)
        ensures
            s.issued == 0,
    {
        Supply { issued: 0 }
    }
}

/// A place in the storage: nothing is there, or bytes that do not decode, with the
/// reason that decoding them ends with, or a value.
pub enum Slot<T> {
    Vacant,
    Garbled(Seq<char>),
    Holds(T),
}

impl<T> Slot<T> {
    /// Why a value cannot be loaded.
    pub open spec fn load_fault(self) -> Option<StdFault> {
        match self {
            Slot::Vacant => Some(StdFault::NotFound),
            Slot::Garbled(msg) => Some(StdFault::ParseErr { msg }),
            Slot::Holds(_) => None,
        }
    }

    /// Why it cannot be told whether there is a value.
    pub open spec fn peek_fault(self) -> Option<StdFault> {
        match self {
            Slot::Garbled(msg) => Some(StdFault::ParseErr { msg }),
            _ => None,
        }
    }
}

/// A place in a map of the storage. A key that is absent has nothing stored, and
/// a key with `Err` has bytes that do not decode.
pub open spec fn slot<K, V>(m: Map<K, Result<V, Seq<char>>>, k: K) -> Slot<V> {
    if !m.contains_key(k) {
        Slot::Vacant
    } else {
        match m[k] {
            Ok(v) => Slot::Holds(v),
            Err(msg) => Slot::Garbled(msg),
        }
    }
}

/// Who may mint the wrapped token, and up to which total supply.
#[derive(Debug)]
pub struct MinterData {
    pub minter: String,
    pub cap: Option<u128>,
}

/// The wrapped token, as the token itself records it.
#[derive(Debug)]
pub struct TokenInfo {
    pub name: String,
    pub symbol: String,
    pub decimals: u8,
    pub total_supply: u128,
    pub mint: Option<MinterData>,
}

pub struct TokenInfoView {
    pub name: Seq<char>,
    pub symbol: Seq<char>,
    pub decimals: u8,
    pub total_supply: u128,
    /// Who may mint, and up to which total supply.
    pub mint: Option<(Seq<char>, Option<u128>)>,
}

impl View for TokenInfo {
    type V = TokenInfoView;

    open spec fn view(&self) -> TokenInfoView {
        TokenInfoView {
            name: self.name@,
            symbol: self.symbol@,
            decimals: self.decimals,
            total_supply: self.total_supply,
            mint: match self.mint {
                Some(m) => Some((m.minter@, m.cap)),
                None => None,
            },
        }
    }
}

pub struct AllowanceView {
    pub allowance: u128,
    pub expires: Expiration,
}

/// The books of the wrapped token.
pub struct TokenBook {
    pub info: Slot<TokenInfoView>,
    pub balances: Map<Seq<char>, Result<u128, Seq<char>>>,
    /// Keyed by owner and spender.
    pub allowances: Map<(Seq<char>, Seq<char>), Result<AllowanceView, Seq<char>>>,
}

/// What a chain lets the contract see: the addresses that it accepts, and what
/// is stored under the contract's keys.
pub struct Ledger {
    pub addresses: Set<Seq<char>>,
    /// What the chain says of a text that it does not accept as an address.
    pub refused: Map<Seq<char>, StdFault>,
    /// The name and the version of the contract that set the storage up.
    pub version: Slot<(Seq<char>, Seq<char>)>,
    pub config: Slot<ConfigView>,
    pub issued: Slot<u128>,
    /// Whether a cw20 token is on the wrapping list; absent if it never was.
    pub tokens: Map<Seq<char>, Result<bool, Seq<char>>>,
    /// The cw20 tokens that ever were on the wrapping list.
    pub historical: Map<Seq<char>, Result<bool, Seq<char>>>,
    pub token: TokenBook,
}

/// The storage and the address validation of the chain, for reading and writing.
#[verifier::external_body]
pub struct DepsMut<'a> {
    pub inner: cosmwasm_std::DepsMut<'a>,
}

/// The storage and the address validation of the chain, for reading.
#[verifier::external_body]
pub struct Deps<'a> {
    pub inner: cosmwasm_std::Deps<'a>,
}

/// What `deps` holds. A storage that keeps what is written into it is presumed,
/// and an address validation that answers the same text the same way each time,
/// whatever is stored: `cosmwasm_std::Api` asks that of each of its members.
pub uninterp spec fn ledger(deps: DepsMut<'_>) -> Ledger;

/// What `deps` shows.
pub uninterp spec fn ledger_seen(deps: Deps<'_>) -> Ledger;

/// `cosmwasm_std::DepsMut::as_ref`: the same storage and address validation,
/// for reading.
#[verifier::external_body]
pub(crate) fn as_ref<'b>(deps: &'b DepsMut<'_>) -> (r: Deps<'b>)
    ensures
        ledger_seen(r) == ledger(*deps),
{
    Deps { inner: deps.inner.as_ref() }
}

/// `cosmwasm_std::Api::addr_validate`: which texts the chain accepts as addresses,
/// and what it says of the others, is up to the chain, and the same each time; an
/// accepted text is handed back as it is.
#[verifier::external_body]
pub(crate) fn addr_validate(deps: &Deps<'_>, human: &str) -> (res: Result<
    String,
    cosmwasm_std::StdError,
>)
    ensures
        res is Ok <==> ledger_seen(*deps).addresses.contains(human@),
        res matches Ok(addr) ==> addr@ == human@,
        res matches Err(e) ==> std_fault(e) == ledger_seen(*deps).refused[human@],
{
    deps.inner.api.addr_validate(human).map(|addr| addr.into_string())
}

/// The keys of the contract's own entries in the storage.
pub const CONFIG_KEY: &'static str = "config";

pub const SUPPLY_KEY: &'static str = "total_supply";

pub const TOKENS_KEY: &'static str = "tokens";

pub const HISTORICAL_KEY: &'static str = "historical_tokens";

/// `cw_storage_plus::Item::load` of the settings, which are stored as a row of
/// texts, numbers and a flag: it succeeds where a value is stored. Else the error
/// says that nothing was found, or why the bytes do not decode.
#[verifier::external_body]
pub(crate) fn load_config(deps: &Deps<'_>) -> (res: Result<Config, cosmwasm_std::StdError>)
    ensures
        match res {
            Ok(c) => ledger_seen(*deps).config == Slot::Holds(c@),
            Err(e) => ledger_seen(*deps).config.load_fault() == Some(std_fault(e)),
        },
{
    let item: Item<(String, String, Decimal, String, bool, Uint128, u64)> = Item::new(CONFIG_KEY);
    let row = item.load(deps.inner.storage)?;
    Ok(
        Config {
            governer: row.0,
            fee_recipient: row.1,
            fee_percentage: row.2.atomics().u128(),
            native_token_denom: row.3,
            is_native_allowed: row.4,
            wrapping_limit: row.5.u128(),
            proposal_nonce: row.6,
        },
    )
}

/// `cw_storage_plus::Item::save` of the settings: they replace what was stored.
/// For texts, numbers and flags the JSON writer has no way to fail.
#[verifier::external_body]
pub(crate) fn save_config(deps: &mut DepsMut<'_>, c: Config) -> (res: Result<
    (),
    cosmwasm_std::StdError,
>)
    ensures
        res is Ok,
        ledger(*final(deps)) == (Ledger { config: Slot::Holds(c@), ..ledger(*old(deps)) }),
{
    let fee = Decimal::new(Uint128::new(c.fee_percentage));
    let limit = Uint128::new(c.wrapping_limit);
    let row = (
        c.governer,
        c.fee_recipient,
        fee,
        c.native_token_denom,
        c.is_native_allowed,
        limit,
        c.proposal_nonce,
    );
    Item::new(CONFIG_KEY).save(deps.inner.storage, &row)
}

/// `cw_storage_plus::Item::load` of the issued amount: it succeeds where a value
/// is stored. Else the error says that nothing was found, or why the bytes do not
/// decode.
#[verifier::external_body]
pub(crate) fn load_supply(deps: &Deps<'_>) -> (res: Result<Supply, cosmwasm_std::StdError>)
    ensures
        match res {
            Ok(s) => ledger_seen(*deps).issued == Slot::Holds(s.issued),
            Err(e) => ledger_seen(*deps).issued.load_fault() == Some(std_fault(e)),
        },
{
    let item: Item<Uint128> = Item::new(SUPPLY_KEY);
    item.load(deps.inner.storage).map(|issued| Supply { issued: issued.u128() })
}

/// `cw_storage_plus::Item::save` of the issued amount: it replaces what was
/// stored. For a number the JSON writer has no way to fail.
#[verifier::external_body]
pub(crate) fn save_supply(deps: &mut DepsMut<'_>, s: Supply) -> (res: Result<
    (),
    cosmwasm_std::StdError,
>)
    ensures
        res is Ok,
        ledger(*final(deps)) == (Ledger { issued: Slot::Holds(s.issued), ..ledger(*old(deps)) }),
{
    Item::new(SUPPLY_KEY).save(deps.inner.storage, &Uint128::new(s.issued))
}

/// `cw_storage_plus::Map::has` on the wrapping list: whether anything is stored
/// for the token.
#[verifier::external_body]
pub(crate) fn has_token(deps: &Deps<'_>, token: &str) -> (b: bool)
    ensures
        b == ledger_seen(*deps).tokens.contains_key(token@),
{
    let map: StorageMap<Addr, bool> = StorageMap::new(TOKENS_KEY);
    map.has(deps.inner.storage, Addr::unchecked(token))
}

/// `cw_storage_plus::Map::load` on the wrapping list: it succeeds where a flag
/// is stored for the token. Else the error says that nothing was found, or why the
/// bytes do not decode.
#[verifier::external_body]
pub(crate) fn load_token(deps: &Deps<'_>, token: &str) -> (res: Result<
    bool,
    cosmwasm_std::StdError,
>)
    ensures
        match res {
            Ok(b) => slot(ledger_seen(*deps).tokens, token@) == Slot::Holds(b),
            Err(e) => slot(ledger_seen(*deps).tokens, token@).load_fault() == Some(std_fault(e)),
        },
{
    let map: StorageMap<Addr, bool> = StorageMap::new(TOKENS_KEY);
    map.load(deps.inner.storage, Addr::unchecked(token))
}

/// `cw_storage_plus::Map::save` on the wrapping list: the flag replaces what was
/// stored for the token. For a flag the JSON writer has no way to fail.
#[verifier::external_body]
pub(crate) fn save_token(deps: &mut DepsMut<'_>, token: &str, b: bool) -> (res: Result<
    (),
    cosmwasm_std::StdError,
>)
    ensures
        res is Ok,
        ledger(*final(deps)) == (Ledger {
            tokens: ledger(*old(deps)).tokens.insert(token@, Ok(b)),
            ..ledger(*old(deps))
        }),
{
    let map: StorageMap<Addr, bool> = StorageMap::new(TOKENS_KEY);
    map.save(deps.inner.storage, Addr::unchecked(token), &b)
}

/// `cw_storage_plus::Map::save` on the list of tokens that ever were wrapped:
/// the flag replaces what was stored for the token. For a flag the JSON writer
/// has no way to fail.
#[verifier::external_body]
pub(crate) fn save_historical(deps: &mut DepsMut<'_>, token: &str, b: bool) -> (res: Result<
    (),
    cosmwasm_std::StdError,
>)
    ensures
        res is Ok,
        ledger(*final(deps)) == (Ledger {
            historical: ledger(*old(deps)).historical.insert(token@, Ok(b)),
            ..ledger(*old(deps))
        }),
{
    let map: StorageMap<Addr, bool> = StorageMap::new(HISTORICAL_KEY);
    map.save(deps.inner.storage, Addr::unchecked(token), &b)
}

/// `cw2::set_contract_version`: the name and the version replace what was
/// stored. For texts the JSON writer has no way to fail.
#[verifier::external_body]
pub(crate) fn set_contract_version(deps: &mut DepsMut<'_>, name: &str, version: &str) -> (res:
    Result<(), cosmwasm_std::StdError>)
    ensures
        res is Ok,
        ledger(*final(deps)) == (Ledger {
            version: Slot::Holds((name@, version@)),
            ..ledger(*old(deps))
        }),
{
    cw2::set_contract_version(deps.inner.storage, name, version)
}

} // verus!
