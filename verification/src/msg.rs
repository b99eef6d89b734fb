//! The messages of the contract, what comes along with them, and what the
//! queries answer.
use vstd::prelude::*;

verus! {

/// An amount of one native token.
#[derive(Debug)]
pub struct Coin {
    pub denom: String,
    pub amount: u128,
}

/// Where and when a message is handled.
#[derive(Debug)]
pub struct Env {
    pub height: u64,
    /// The time of the block, in nanoseconds.
    pub time: u64,
    /// The address of this contract.
    pub contract: String,
}

/// Who sent a message, and the native tokens that came with it.
#[derive(Debug)]
pub struct MessageInfo {
    pub sender: String,
    pub funds: Vec<Coin>,
}

/// When an allowance ends.
#[derive(Debug, Clone, Copy, PartialEq, Eq, Structural)]
pub enum Expiration {
    AtHeight(u64),
    /// A time in nanoseconds.
    AtTime(u64),
    Never,
}

impl Expiration {
    pub open spec fn is_expired(self, env: Env) -> bool {
        match self {
            Expiration::AtHeight(height) => env.height >= height,
            Expiration::AtTime(time) => env.time >= time,
            Expiration::Never => false,
        }
    }
}

#[derive(Debug)]
pub struct InstantiateMsg {
    /// Whom the contract obeys; the sender, where nobody is named.
    pub governer: Option<String>,
    /// Who receives the fees.
    pub fee_recipient: String,
    /// The fee rate, a whole percentage.
    pub fee_percentage: String,
    pub native_token_denom: String,
    /// Zero where the native token cannot be wrapped.
    pub is_native_allowed: u32,
    /// How much may be issued in all.
    pub wrapping_limit: String,
    /// The name, the symbol and the decimal places of the wrapped token.
    pub name: String,
    pub symbol: String,
    pub decimals: u8,
}

/// What a cw20 token contract asks for when it hands tokens over.
#[derive(Debug)]
pub enum Cw20HookMsg {
    Wrap {},
}

/// The notice of a cw20 token contract that it has received tokens for this one.
#[derive(Debug)]
pub struct Cw20ReceiveMsg {
    /// Who sent the tokens.
    pub sender: String,
    pub amount: u128,
    /// What the payload decodes to.
    pub msg: Result<Cw20HookMsg, cosmwasm_std::StdError>,
}

#[allow(inconsistent_fields)]
#[derive(Debug)]
pub enum ExecuteMsg {
    /// Wraps the native tokens that come along.
    Wrap {},
    /// Pays out native tokens, or those of the named cw20 token.
    Unwrap { token: Option<String>, amount: u128 },
    /// Wraps the cw20 tokens of the sending token contract.
    Receive(Cw20ReceiveMsg),
    /// Sets a new governer. Only the governer can execute this entry.
    SetGoverner { new_governer: String },
    /// Allows or forbids wrapping the native token.
    SetNativeAllowed { is_native_allowed: u32 },
    UpdateLimit { new_limit: String },
    SetFee { new_fee_perc: String },
    SetFeeRecipient { new_recipient: String },
    /// Adds a cw20 token to the wrapping list.
    AddCw20TokenAddr { token: String, nonce: u64 },
    /// Takes a cw20 token off the wrapping list.
    RemoveCw20TokenAddr { token: String, nonce: u64 },
    Transfer { recipient: String, amount: u128 },
    Burn { amount: u128 },
    Send { contract: String, amount: u128, msg: Vec<u8> },
    IncreaseAllowance { spender: String, amount: u128, expires: Option<Expiration> },
    DecreaseAllowance { spender: String, amount: u128, expires: Option<Expiration> },
    TransferFrom { owner: String, recipient: String, amount: u128 },
    BurnFrom { owner: String, amount: u128 },
    SendFrom { owner: String, contract: String, amount: u128, msg: Vec<u8> },
}

#[derive(Debug)]
pub enum QueryMsg {
    Config {},
    /// The fee for wrapping an amount.
    FeeFromAmount { amount_to_wrap: String },
    /// What has to be sent so that an amount gets minted.
    GetAmountToWrap { target_amount: String },
    TokenInfo {},
    Balance { address: String },
    Allowance { owner: String, spender: String },
}

#[derive(Debug)]
pub struct ConfigResponse {
    pub governer: String,
    pub native_token_denom: String,
    pub fee_recipient: String,
    pub fee_percentage: String,
    pub is_native_allowed: String,
    pub wrapping_limit: String,
    pub proposal_nonce: String,
}

#[derive(Debug)]
pub struct FeeFromAmountResponse {
    pub amount_to_wrap: String,
    pub fee_amt: String,
}

#[derive(Debug)]
pub struct GetAmountToWrapResponse {
    pub target_amount: String,
    pub amount_to_wrap: String,
}

#[derive(Debug)]
pub struct TokenInfoResponse {
    pub name: String,
    pub symbol: String,
    pub decimals: u8,
    pub total_supply: u128,
}

#[derive(Debug)]
pub struct AllowanceResponse {
    pub allowance: u128,
    pub expires: Expiration,
}

/// The answer to a query.
#[derive(Debug)]
pub enum QueryResponse {
    Config(ConfigResponse),
    FeeFromAmount(FeeFromAmountResponse),
    GetAmountToWrap(GetAmountToWrapResponse),
    TokenInfo(TokenInfoResponse),
    Balance { balance: u128 },
    Allowance(AllowanceResponse),
}

} // verus!
