//! The errors that the contract answers with.
use vstd::prelude::*;

verus! {

/// An error of `cosmwasm_std`, carried as it is.
#[verifier::external_type_specification]
#[verifier::external_body]
pub struct ExStdError(cosmwasm_std::StdError);

/// An error of `cw20_base`, carried as it is.
#[verifier::external_type_specification]
#[verifier::external_body]
pub struct ExTokenError(cw20_base::ContractError);

/// What an error of `cosmwasm_std` says. The type that was looked for, which the
/// error also names, is left out: it is the compiler that words it.
pub enum StdFault {
    /// Nothing is stored.
    NotFound,
    /// What is stored, or came in, does not decode, for the reason that the text
    /// gives.
    ParseErr { msg: Seq<char> },
    /// `right` was to be subtracted from a smaller `left`.
    Overflow { left: Seq<char>, right: Seq<char> },
    /// An error that is told in words alone.
    Generic { msg: Seq<char> },
    /// Any other error, as it is written out.
    Other { text: Seq<char> },
}

/// What an error says: its variant, and what the variant holds. An error of
/// another variant than `NotFound`, `ParseErr`, `GenericErr` and `Overflow` of a
/// subtraction is `Other`, with what its `Display` writes.
pub uninterp spec fn std_fault(e: cosmwasm_std::StdError) -> StdFault;

/// The first of two reasons.
pub open spec fn first<F>(a: Option<F>, b: Option<F>) -> Option<F> {
    match a {
        Some(f) => Some(f),
        None => b,
    }
}

/// Why the wrapped token refuses.
#[derive(Debug)]
pub enum TokenError {
    /// The storage or the address validation failed, or an account or an
    /// allowance does not cover the amount.
    Std(cosmwasm_std::StdError),
    Unauthorized {},
    CannotSetOwnAccount {},
    InvalidZeroAmount {},
    Expired {},
    NoAllowance {},
    CannotExceedCap {},
    LogoTooBig {},
    InvalidXmlPreamble {},
    InvalidPngHeader {},
    DuplicateInitialBalanceAddresses {},
}

/// What a refusal of the token says.
pub enum TokenFault {
    Std(StdFault),
    Unauthorized,
    CannotSetOwnAccount,
    InvalidZeroAmount,
    Expired,
    NoAllowance,
    CannotExceedCap,
    LogoTooBig,
    InvalidXmlPreamble,
    InvalidPngHeader,
    DuplicateInitialBalanceAddresses,
}

/// The fault of the token that an error of `cosmwasm_std` leads to.
pub open spec fn in_token(fault: Option<StdFault>) -> Option<TokenFault> {
    match fault {
        Some(f) => Some(TokenFault::Std(f)),
        None => None,
    }
}

impl View for TokenError {
    type V = TokenFault;

    open spec fn view(&self) -> TokenFault {
        match self {
            TokenError::Std(e) => TokenFault::Std(std_fault(*e)),
            TokenError::Unauthorized {  } => TokenFault::Unauthorized,
            TokenError::CannotSetOwnAccount {  } => TokenFault::CannotSetOwnAccount,
            TokenError::InvalidZeroAmount {  } => TokenFault::InvalidZeroAmount,
            TokenError::Expired {  } => TokenFault::Expired,
            TokenError::NoAllowance {  } => TokenFault::NoAllowance,
            TokenError::CannotExceedCap {  } => TokenFault::CannotExceedCap,
            TokenError::LogoTooBig {  } => TokenFault::LogoTooBig,
            TokenError::InvalidXmlPreamble {  } => TokenFault::InvalidXmlPreamble,
            TokenError::InvalidPngHeader {  } => TokenFault::InvalidPngHeader,
            TokenError::DuplicateInitialBalanceAddresses {  } => {
                TokenFault::DuplicateInitialBalanceAddresses
            },
        }
    }
}

/// What an error of the token says: which of the variants of
/// `cw20_base::ContractError` it is, and what an error of `cosmwasm_std` in it says.
pub uninterp spec fn token_fault(e: cw20_base::ContractError) -> TokenFault;

/// The variants of `cw20_base::ContractError`, one for one.
#[verifier::external_body]
pub(crate) fn token_error(e: cw20_base::ContractError) -> (r: TokenError)
    ensures
        r@ == token_fault(e),
{
    match e {
        cw20_base::ContractError::Std(e) => TokenError::Std(e),
        cw20_base::ContractError::Unauthorized {} => TokenError::Unauthorized {},
        cw20_base::ContractError::CannotSetOwnAccount {} => TokenError::CannotSetOwnAccount {},
        cw20_base::ContractError::InvalidZeroAmount {} => TokenError::InvalidZeroAmount {},
        cw20_base::ContractError::Expired {} => TokenError::Expired {},
        cw20_base::ContractError::NoAllowance {} => TokenError::NoAllowance {},
        cw20_base::ContractError::CannotExceedCap {} => TokenError::CannotExceedCap {},
        cw20_base::ContractError::LogoTooBig {} => TokenError::LogoTooBig {},
        cw20_base::ContractError::InvalidXmlPreamble {} => TokenError::InvalidXmlPreamble {},
        cw20_base::ContractError::InvalidPngHeader {} => TokenError::InvalidPngHeader {},
        cw20_base::ContractError::DuplicateInitialBalanceAddresses {} => TokenError::DuplicateInitialBalanceAddresses {},
    }
}

#[derive(Debug)]
pub enum WrapperError {
    /// The storage, the address validation or the decoding of a message failed.
    Std(cosmwasm_std::StdError),
    /// The contract refuses, for the reason that the text gives.
    Generic(String),
    /// The wrapped token refuses.
    Token(TokenError),
    /// The sender is not the governer.
    Unauthorized {},
    /// No native token was sent along.
    InsufficientFunds {},
    /// The token was never added to the wrapping list.
    NotInitialized,
}

/// What a refusal says.
pub enum Refusal {
    Std(StdFault),
    Generic(Seq<char>),
    Token(TokenFault),
    Unauthorized,
    InsufficientFunds,
    NotInitialized,
}

/// The refusal that an error of `cosmwasm_std` leads to.
pub open spec fn by_std(fault: Option<StdFault>) -> Option<Refusal> {
    match fault {
        Some(f) => Some(Refusal::Std(f)),
        None => None,
    }
}

/// The refusal that a fault of the token leads to.
pub open spec fn by_token(fault: Option<TokenFault>) -> Option<Refusal> {
    match fault {
        Some(f) => Some(Refusal::Token(f)),
        None => None,
    }
}

impl View for WrapperError {
    type V = Refusal;

    open spec fn view(&self) -> Refusal {
        match self {
            WrapperError::Std(e) => Refusal::Std(std_fault(*e)),
            WrapperError::Generic(text) => Refusal::Generic(text@),
            WrapperError::Token(e) => Refusal::Token(e@),
            WrapperError::Unauthorized {  } => Refusal::Unauthorized,
            WrapperError::InsufficientFunds {  } => Refusal::InsufficientFunds,
            WrapperError::NotInitialized => Refusal::NotInitialized,
        }
    }
}

/// The error of a refusal that the contract words itself.
pub fn generic(text: &str) -> (e: WrapperError)
    ensures
        e@ == Refusal::Generic(text@),
{
    WrapperError::Generic(text.to_owned())
}

} // verus!
