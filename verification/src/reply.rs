//! The reply to a handled message: the messages that the contract sends out and
//! the attributes that it reports.
use vstd::prelude::*;

verus! {

/// A type without content, which `Response` names.
#[verifier::external_type_specification]
#[verifier::external_body]
pub struct ExEmpty(cosmwasm_std::Empty);

/// The reply that the chain expects.
#[verifier::external_type_specification]
#[verifier::external_body]
#[verifier::reject_recursive_types(T)]
pub struct ExResponse<T>(cosmwasm_std::Response<T>);

/// A message that goes out with a reply. The first two are sent without a limit
/// of their own on what they cost, without asking for an answer, and so with the
/// id of zero.
pub enum Outgoing {
    /// Native tokens of one denomination, sent to an account.
    BankSend { to: Seq<char>, amount: u128, denom: Seq<char> },
    /// A call of another contract, without funds.
    WasmExecute { contract: Seq<char>, msg: Seq<u8> },
    Other,
}

/// The messages that go out with a reply, in their order.
pub uninterp spec fn sent_messages(r: cosmwasm_std::Response) -> Seq<Outgoing>;

/// The attributes of a reply, in their order.
pub uninterp spec fn attributes(r: cosmwasm_std::Response) -> Seq<(Seq<char>, Seq<char>)>;

/// The events of a reply besides the main one, in their order: the type of each,
/// and its attributes.
pub uninterp spec fn events(r: cosmwasm_std::Response) -> Seq<
    (Seq<char>, Seq<(Seq<char>, Seq<char>)>),
>;

/// The payload of a reply.
pub uninterp spec fn data(r: cosmwasm_std::Response) -> Option<Seq<u8>>;

/// What a reply holds.
#[verifier::ext_equal]
pub struct ReplyView {
    pub messages: Seq<Outgoing>,
    pub attributes: Seq<(Seq<char>, Seq<char>)>,
    pub events: Seq<(Seq<char>, Seq<(Seq<char>, Seq<char>)>)>,
    pub data: Option<Seq<u8>>,
}

pub open spec fn reply_view(r: cosmwasm_std::Response) -> ReplyView {
    ReplyView {
        messages: sent_messages(r),
        attributes: attributes(r),
        events: events(r),
        data: data(r),
    }
}

/// A reply of messages and attributes alone, without further events and without a
/// payload.
pub open spec fn saying(
    messages: Seq<Outgoing>,
    attributes: Seq<(Seq<char>, Seq<char>)>,
) -> ReplyView {
    ReplyView { messages, attributes, events: Seq::empty(), data: None }
}

/// `cosmwasm_std::Response::new`: a reply that holds nothing.
#[verifier::external_body]
pub(crate) fn new_reply() -> (r: cosmwasm_std::Response)
    ensures
        sent_messages(r) == Seq::<Outgoing>::empty(),
        attributes(r) == Seq::<(Seq<char>, Seq<char>)>::empty(),
        events(r) == Seq::<(Seq<char>, Seq<(Seq<char>, Seq<char>)>)>::empty(),
        data(r) == None::<Seq<u8>>,
{
    cosmwasm_std::Response::new()
}

/// `cosmwasm_std::Response::add_attribute`: the attribute comes last. Builds
/// with debug assertions panic on a key that starts with an underscore.
#[verifier::external_body]
pub(crate) fn add_attribute(r: cosmwasm_std::Response, key: &str, value: String) -> (res:
    cosmwasm_std::Response)
    requires
        key@.len() == 0 || key@[0] != '_',
    ensures
        sent_messages(res) == sent_messages(r),
        attributes(res) == attributes(r).push((key@, value@)),
        events(res) == events(r),
        data(res) == data(r),
{
    r.add_attribute(key, value)
}

/// `cosmwasm_std::Response::add_message` with the `BankMsg::Send` of a single
/// coin: the message comes last.
#[verifier::external_body]
pub(crate) fn add_bank_send(
    r: cosmwasm_std::Response,
    to: String,
    amount: u128,
    denom: String,
) -> (res: cosmwasm_std::Response)
    ensures
        sent_messages(res) == sent_messages(r).push(
            Outgoing::BankSend { to: to@, amount, denom: denom@ },
        ),
        attributes(res) == attributes(r),
        events(res) == events(r),
        data(res) == data(r),
{
    let amount = cosmwasm_std::coins(amount, denom);
    r.add_message(cosmwasm_std::BankMsg::Send { to_address: to, amount })
}

/// `cosmwasm_std::Response::add_message` with a `WasmMsg::Execute` that takes no
/// funds along: the message comes last.
#[verifier::external_body]
pub(crate) fn add_wasm_execute(r: cosmwasm_std::Response, contract: String, msg: Vec<u8>) -> (res:
    cosmwasm_std::Response)
    ensures
        sent_messages(res) == sent_messages(r).push(
            Outgoing::WasmExecute { contract: contract@, msg: msg@ },
        ),
        attributes(res) == attributes(r),
        events(res) == events(r),
        data(res) == data(r),
{
    let msg = cosmwasm_std::Binary(msg);
    r.add_message(cosmwasm_std::WasmMsg::Execute { contract_addr: contract, msg, funds: vec![] })
}

/// The bytes that ask a cw20 token contract to transfer `amount` to `recipient`.
pub uninterp spec fn transfer_payload(recipient: Seq<char>, amount: u128) -> Seq<u8>;

/// `cosmwasm_std::to_binary` of a `cw20::Cw20ExecuteMsg::Transfer`. The message
/// holds a text and a number, for which the JSON writer has no way to fail.
#[verifier::external_body]
pub(crate) fn encode_transfer(recipient: String, amount: u128) -> (res: Result<
    Vec<u8>,
    cosmwasm_std::StdError,
>)
    ensures
        res is Ok,
        res matches Ok(bytes) ==> bytes@ == transfer_payload(recipient@, amount),
{
    let amount = cosmwasm_std::Uint128::new(amount);
    let msg = cw20::Cw20ExecuteMsg::Transfer { recipient, amount };
    cosmwasm_std::to_json_binary(&msg).map(|b| b.0)
}

/// None of the contract's attributes has a key that starts with an underscore.
pub(crate) proof fn lemma_attribute_keys()
    ensures
        "action"@[0] != '_',
        "from"@[0] != '_',
        "minted"@[0] != '_',
        "fee"@[0] != '_',
        "unwrap"@[0] != '_',
        "refund"@[0] != '_',
        "method"@[0] != '_',
        "new_governer"@[0] != '_',
        "is_native_allowed"@[0] != '_',
        "new_limit"@[0] != '_',
        "new_fee_perc"@[0] != '_',
        "new_recipient"@[0] != '_',
        "token"@[0] != '_',
{
    reveal_strlit("action");
    reveal_strlit("from");
    reveal_strlit("minted");
    reveal_strlit("fee");
    reveal_strlit("unwrap");
    reveal_strlit("refund");
    reveal_strlit("method");
    reveal_strlit("new_governer");
    reveal_strlit("is_native_allowed");
    reveal_strlit("new_limit");
    reveal_strlit("new_fee_perc");
    reveal_strlit("new_recipient");
    reveal_strlit("token");
}

} // verus!
