use cosmwasm_std::testing::{mock_dependencies, MockApi, MockQuerier, MockStorage};
use cosmwasm_std::{
    from_json, Attribute, Binary, CosmosMsg, OverflowError, OverflowOperation, OwnedDeps, Response,
    StdError, WasmMsg,
};
use tokenwrapper::contract::{execute, instantiate, query};
use tokenwrapper::error::{TokenError, WrapperError};
use tokenwrapper::limits::{checked_execute, checked_query};
use tokenwrapper::msg::{
    Coin, Env, ExecuteMsg, Expiration, InstantiateMsg, MessageInfo, QueryMsg, QueryResponse,
};
use tokenwrapper::state::{Deps, DepsMut};
use tokenwrapper::text::flag_to_string;

type Chain = OwnedDeps<MockStorage, MockApi, MockQuerier>;

fn env() -> Env {
    Env { height: 100, time: 1_000, contract: "wrapper".to_string() }
}

fn info(sender: &str) -> MessageInfo {
    MessageInfo { sender: sender.to_string(), funds: vec![] }
}

/// A contract without a fee, where alice holds 1000.
fn setup() -> Chain {
    let mut chain = mock_dependencies();
    let msg = InstantiateMsg {
        governer: None,
        fee_recipient: "treasury".to_string(),
        fee_percentage: "0".to_string(),
        native_token_denom: "uusd".to_string(),
        is_native_allowed: 1,
        wrapping_limit: u128::MAX.to_string(),
        name: "Wrapped".to_string(),
        symbol: "WRP".to_string(),
        decimals: 6,
    };
    instantiate(&mut DepsMut { inner: chain.as_mut() }, env(), info("creator"), msg).unwrap();
    let coin = Coin { denom: "uusd".to_string(), amount: 1000 };
    let sent = MessageInfo { sender: "alice".to_string(), funds: vec![coin] };
    execute(&mut DepsMut { inner: chain.as_mut() }, env(), sent, ExecuteMsg::Wrap {}).unwrap();
    chain
}

fn run(chain: &mut Chain, sender: &str, msg: ExecuteMsg) -> Result<Response, WrapperError> {
    execute(&mut DepsMut { inner: chain.as_mut() }, env(), info(sender), msg)
}

fn balance(chain: &Chain, who: &str) -> u128 {
    let msg = QueryMsg::Balance { address: who.to_string() };
    match query(Deps { inner: chain.as_ref() }, env(), msg) {
        Ok(QueryResponse::Balance { balance }) => balance,
        other => panic!("not a balance: {:?}", other),
    }
}

fn total_supply(chain: &Chain) -> u128 {
    match query(Deps { inner: chain.as_ref() }, env(), QueryMsg::TokenInfo {}) {
        Ok(QueryResponse::TokenInfo(t)) => t.total_supply,
        other => panic!("not a token: {:?}", other),
    }
}

fn allowance(chain: &Chain, owner: &str, spender: &str) -> (u128, Expiration) {
    let msg = QueryMsg::Allowance { owner: owner.to_string(), spender: spender.to_string() };
    match query(Deps { inner: chain.as_ref() }, env(), msg) {
        Ok(QueryResponse::Allowance(a)) => (a.allowance, a.expires),
        other => panic!("not an allowance: {:?}", other),
    }
}

fn attrs(pairs: &[(&str, &str)]) -> Vec<Attribute> {
    pairs.iter().map(|p| Attribute::new(p.0, p.1)).collect()
}

fn allow(spender: &str, amount: u128, expires: Option<Expiration>) -> ExecuteMsg {
    ExecuteMsg::IncreaseAllowance { spender: spender.to_string(), amount, expires }
}

fn by_token(res: Result<Response, WrapperError>) -> TokenError {
    match res {
        Err(WrapperError::Token(e)) => e,
        other => panic!("not refused by the token: {:?}", other),
    }
}

/// What a contract learns of tokens that were sent to it.
fn received(res: &Response) -> (String, String) {
    assert_eq!(res.messages.len(), 1);
    match &res.messages[0].msg {
        CosmosMsg::Wasm(WasmMsg::Execute { contract_addr, msg, .. }) => {
            (contract_addr.clone(), String::from_utf8(msg.to_vec()).unwrap())
        }
        other => panic!("not a call: {:?}", other),
    }
}

#[test]
fn transfer_moves_tokens() {
    let mut chain = setup();
    let msg = ExecuteMsg::Transfer { recipient: "bob".to_string(), amount: 300 };
    let res = run(&mut chain, "alice", msg).unwrap();
    let expected = [("action", "transfer"), ("from", "alice"), ("to", "bob"), ("amount", "300")];
    assert_eq!(res.attributes, attrs(&expected));
    assert!(res.messages.is_empty());
    assert_eq!((balance(&chain, "alice"), balance(&chain, "bob")), (700, 300));
    assert_eq!(total_supply(&chain), 1000);
    let own = ExecuteMsg::Transfer { recipient: "alice".to_string(), amount: 700 };
    run(&mut chain, "alice", own).unwrap();
    assert_eq!(balance(&chain, "alice"), 700);
}

#[test]
fn transfer_is_refused() {
    let mut chain = setup();
    let to = |recipient: &str, amount: u128| ExecuteMsg::Transfer {
        recipient: recipient.to_string(),
        amount,
    };
    let e = by_token(run(&mut chain, "alice", to("bob", 0)));
    assert!(matches!(e, TokenError::InvalidZeroAmount {}));
    let e = by_token(run(&mut chain, "alice", to("X", 1)));
    assert!(matches!(e, TokenError::Std(_)));
    let e = by_token(run(&mut chain, "alice", to("bob", 1001)));
    assert!(matches!(e, TokenError::Std(_)));
    assert_eq!((balance(&chain, "alice"), balance(&chain, "bob")), (1000, 0));
}

#[test]
fn burn_destroys_tokens() {
    let mut chain = setup();
    let res = run(&mut chain, "alice", ExecuteMsg::Burn { amount: 400 }).unwrap();
    let expected = [("action", "burn"), ("from", "alice"), ("amount", "400")];
    assert_eq!(res.attributes, attrs(&expected));
    assert_eq!((balance(&chain, "alice"), total_supply(&chain)), (600, 600));
    by_token(run(&mut chain, "alice", ExecuteMsg::Burn { amount: 601 }));
}

#[test]
fn send_calls_the_contract() {
    let mut chain = setup();
    let msg = ExecuteMsg::Send { contract: "market".to_string(), amount: 5, msg: b"{}".to_vec() };
    let res = run(&mut chain, "alice", msg).unwrap();
    let expected = [("action", "send"), ("from", "alice"), ("to", "market"), ("amount", "5")];
    assert_eq!(res.attributes, attrs(&expected));
    let (to, text) = received(&res);
    assert_eq!(to, "market");
    let payload = Binary::from(b"{}").to_base64();
    let expected = format!(
        "{{\"receive\":{{\"sender\":\"alice\",\"amount\":\"5\",\"msg\":\"{}\"}}}}",
        payload
    );
    assert_eq!(text, expected);
    assert_eq!((balance(&chain, "alice"), balance(&chain, "market")), (995, 5));
}

#[test]
fn allowances_grow_and_shrink() {
    let mut chain = setup();
    assert_eq!(allowance(&chain, "alice", "bob"), (0, Expiration::Never));
    let until = Some(Expiration::AtHeight(200));
    let res = run(&mut chain, "alice", allow("bob", 50, until)).unwrap();
    let expected =
        [("action", "increase_allowance"), ("owner", "alice"), ("spender", "bob"), ("amount", "50")];
    assert_eq!(res.attributes, attrs(&expected));
    run(&mut chain, "alice", allow("bob", 10, None)).unwrap();
    assert_eq!(allowance(&chain, "alice", "bob"), (60, Expiration::AtHeight(200)));
    let lower = |amount: u128, expires: Option<Expiration>| ExecuteMsg::DecreaseAllowance {
        spender: "bob".to_string(),
        amount,
        expires,
    };
    let res = run(&mut chain, "alice", lower(20, Some(Expiration::AtTime(5_000)))).unwrap();
    let expected =
        [("action", "decrease_allowance"), ("owner", "alice"), ("spender", "bob"), ("amount", "20")];
    assert_eq!(res.attributes, attrs(&expected));
    assert_eq!(allowance(&chain, "alice", "bob"), (40, Expiration::AtTime(5_000)));
    run(&mut chain, "alice", lower(40, None)).unwrap();
    assert_eq!(allowance(&chain, "alice", "bob"), (0, Expiration::Never));
    by_token(run(&mut chain, "alice", lower(1, None)));
    let e = by_token(run(&mut chain, "alice", allow("alice", 1, None)));
    assert!(matches!(e, TokenError::CannotSetOwnAccount {}));
}

#[test]
fn lowering_undoes_raising_an_allowance() {
    let mut chain = setup();
    let lower = || ExecuteMsg::DecreaseAllowance {
        spender: "bob".to_string(),
        amount: 25,
        expires: None,
    };
    // an allowance of nothing is forgotten, with its end
    run(&mut chain, "alice", allow("bob", 0, Some(Expiration::AtHeight(9)))).unwrap();
    run(&mut chain, "alice", allow("bob", 25, None)).unwrap();
    assert_eq!(allowance(&chain, "alice", "bob"), (25, Expiration::AtHeight(9)));
    run(&mut chain, "alice", lower()).unwrap();
    assert_eq!(allowance(&chain, "alice", "bob"), (0, Expiration::Never));
    run(&mut chain, "alice", allow("bob", 5, Some(Expiration::AtHeight(9)))).unwrap();
    run(&mut chain, "alice", allow("bob", 25, None)).unwrap();
    run(&mut chain, "alice", lower()).unwrap();
    assert_eq!(allowance(&chain, "alice", "bob"), (5, Expiration::AtHeight(9)));
}

#[test]
fn transfer_from_spends_the_allowance() {
    let mut chain = setup();
    let msg = |amount: u128| ExecuteMsg::TransferFrom {
        owner: "alice".to_string(),
        recipient: "carol".to_string(),
        amount,
    };
    let e = by_token(run(&mut chain, "bob", msg(1)));
    assert!(matches!(e, TokenError::NoAllowance {}));
    run(&mut chain, "alice", allow("bob", 50, Some(Expiration::AtHeight(101)))).unwrap();
    let res = run(&mut chain, "bob", msg(30)).unwrap();
    let expected = [
        ("action", "transfer_from"),
        ("from", "alice"),
        ("to", "carol"),
        ("by", "bob"),
        ("amount", "30"),
    ];
    assert_eq!(res.attributes, attrs(&expected));
    assert_eq!((balance(&chain, "alice"), balance(&chain, "carol")), (970, 30));
    assert_eq!(allowance(&chain, "alice", "bob"), (20, Expiration::AtHeight(101)));
    by_token(run(&mut chain, "bob", msg(21)));
    // an allowance ends with the block that it names
    run(&mut chain, "alice", allow("bob", 1, Some(Expiration::AtHeight(100)))).unwrap();
    let e = by_token(run(&mut chain, "bob", msg(1)));
    assert!(matches!(e, TokenError::Expired {}));
    run(&mut chain, "alice", allow("bob", 1, Some(Expiration::AtTime(1_000)))).unwrap();
    let e = by_token(run(&mut chain, "bob", msg(1)));
    assert!(matches!(e, TokenError::Expired {}));
}

#[test]
fn burn_from_and_send_from_spend_the_allowance() {
    let mut chain = setup();
    run(&mut chain, "alice", allow("bob", 50, None)).unwrap();
    let msg = ExecuteMsg::BurnFrom { owner: "alice".to_string(), amount: 20 };
    let res = run(&mut chain, "bob", msg).unwrap();
    let expected =
        [("action", "burn_from"), ("from", "alice"), ("by", "bob"), ("amount", "20")];
    assert_eq!(res.attributes, attrs(&expected));
    assert_eq!((balance(&chain, "alice"), total_supply(&chain)), (980, 980));
    let msg = ExecuteMsg::SendFrom {
        owner: "alice".to_string(),
        contract: "market".to_string(),
        amount: 30,
        msg: vec![],
    };
    let res = run(&mut chain, "bob", msg).unwrap();
    let expected = [
        ("action", "send_from"),
        ("from", "alice"),
        ("to", "market"),
        ("by", "bob"),
        ("amount", "30"),
    ];
    assert_eq!(res.attributes, attrs(&expected));
    let (to, text) = received(&res);
    assert_eq!(to, "market");
    assert_eq!(text, "{\"receive\":{\"sender\":\"bob\",\"amount\":\"30\",\"msg\":\"\"}}");
    assert_eq!((balance(&chain, "alice"), balance(&chain, "market")), (950, 30));
    assert_eq!(allowance(&chain, "alice", "bob"), (0, Expiration::Never));
}

#[test]
fn checked_execute_stops_before_an_allowance_overflows() {
    let mut chain = setup();
    run(&mut chain, "alice", allow("bob", u128::MAX, None)).unwrap();
    let mut deps = DepsMut { inner: chain.as_mut() };
    assert!(checked_execute(&mut deps, env(), info("alice"), allow("bob", 1, None)).is_none());
    let res = checked_execute(&mut deps, env(), info("alice"), allow("carol", 1, None));
    assert!(matches!(res, Some(Ok(_))));
    assert_eq!(allowance(&chain, "alice", "bob"), (u128::MAX, Expiration::Never));
    assert_eq!(allowance(&chain, "alice", "carol"), (1, Expiration::Never));
}

#[test]
fn checked_execute_stops_before_a_key_overflows() {
    let mut chain = setup();
    let long = "a".repeat(0x10000);
    let mut deps = DepsMut { inner: chain.as_mut() };
    assert!(checked_execute(&mut deps, env(), info(&long), allow("bob", 1, None)).is_none());
    let fits = "a".repeat(0xFFFF);
    let res = checked_execute(&mut deps, env(), info(&fits), allow("bob", 1, None));
    assert!(matches!(res, Some(Ok(_))));
}

#[test]
fn checked_execute_agrees_with_the_token_on_what_fits() {
    let mut chain = setup();
    run(&mut chain, "alice", allow("bob", 50, None)).unwrap();
    let from = |amount: u128| ExecuteMsg::TransferFrom {
        owner: "alice".to_string(),
        recipient: "carol".to_string(),
        amount,
    };
    let mut deps = DepsMut { inner: chain.as_mut() };
    assert!(matches!(checked_execute(&mut deps, env(), info("bob"), from(50)), Some(Ok(_))));
    assert!(matches!(checked_execute(&mut deps, env(), info("bob"), from(1)), Some(Err(_))));
    let huge = ExecuteMsg::Transfer { recipient: "carol".to_string(), amount: u128::MAX };
    assert!(matches!(checked_execute(&mut deps, env(), info("alice"), huge), Some(Err(_))));
}

#[test]
fn a_call_that_the_token_refuses_midway_leaves_its_first_writes() {
    let mut chain = setup();
    let carol = cosmwasm_std::Addr::unchecked("carol");
    let key = cw20_base::state::BALANCES.key(&carol).to_vec();
    cosmwasm_std::Storage::set(&mut chain.storage, &key, b"scrap");
    // the amount has left one account when the other turns out to be unreadable
    let msg = ExecuteMsg::Transfer { recipient: "carol".to_string(), amount: 10 };
    let e = by_token(run(&mut chain, "alice", msg));
    assert!(matches!(e, TokenError::Std(_)));
    assert_eq!(balance(&chain, "alice"), 990);
    // the allowance is spent before the balances are looked at
    run(&mut chain, "alice", allow("bob", 50, None)).unwrap();
    let msg = ExecuteMsg::TransferFrom {
        owner: "alice".to_string(),
        recipient: "carol".to_string(),
        amount: 20,
    };
    by_token(run(&mut chain, "bob", msg));
    assert_eq!(balance(&chain, "alice"), 970);
    assert_eq!(allowance(&chain, "alice", "bob"), (30, Expiration::Never));
    // the total supply grows before the recipient is looked at
    let coin = Coin { denom: "uusd".to_string(), amount: 7 };
    let sent = MessageInfo { sender: "carol".to_string(), funds: vec![coin] };
    let mut deps = DepsMut { inner: chain.as_mut() };
    let res = execute(&mut deps, env(), sent, ExecuteMsg::Wrap {});
    by_token(res);
    assert_eq!(total_supply(&chain), 1007);
}

#[test]
fn a_token_with_another_minter_or_a_cap_refuses_to_mint() {
    let mut chain = setup();
    let wrap = |chain: &mut Chain| {
        let coin = Coin { denom: "uusd".to_string(), amount: 7 };
        let sent = MessageInfo { sender: "alice".to_string(), funds: vec![coin] };
        execute(&mut DepsMut { inner: chain.as_mut() }, env(), sent, ExecuteMsg::Wrap {})
    };
    let mut info = cw20_base::state::TOKEN_INFO.load(&chain.storage).unwrap();
    let minter = cosmwasm_std::Addr::unchecked("wrapper");
    let cap = Some(cosmwasm_std::Uint128::new(1006));
    info.mint = Some(cw20_base::state::MinterData { minter, cap });
    cw20_base::state::TOKEN_INFO.save(&mut chain.storage, &info).unwrap();
    let e = by_token(wrap(&mut chain));
    assert!(matches!(e, TokenError::CannotExceedCap {}));
    info.mint = None;
    cw20_base::state::TOKEN_INFO.save(&mut chain.storage, &info).unwrap();
    let e = by_token(wrap(&mut chain));
    assert!(matches!(e, TokenError::Unauthorized {}));
    assert_eq!(total_supply(&chain), 1000);
}

#[test]
fn balances_of_unacceptable_addresses_are_not_shown() {
    let chain = setup();
    let msg = QueryMsg::Balance { address: "X".to_string() };
    let res = checked_query(Deps { inner: chain.as_ref() }, env(), msg);
    assert!(matches!(res, Some(Err(WrapperError::Std(_)))));
    let msg = QueryMsg::Allowance { owner: "alice".to_string(), spender: "X".to_string() };
    let res = checked_query(Deps { inner: chain.as_ref() }, env(), msg);
    assert!(matches!(res, Some(Err(WrapperError::Std(_)))));
}

/// The error of the chain that the token hands on.
fn std_by_token(res: Result<Response, WrapperError>) -> StdError {
    match by_token(res) {
        TokenError::Std(e) => e,
        other => panic!("not an error of the chain: {:?}", other),
    }
}

#[test]
fn what_does_not_cover_an_amount_is_named() {
    let mut chain = setup();
    let short = |held: u128, amount: u128| {
        StdError::overflow(OverflowError::new(OverflowOperation::Sub, held, amount))
    };
    let msg = ExecuteMsg::Transfer { recipient: "bob".to_string(), amount: 1001 };
    assert_eq!(std_by_token(run(&mut chain, "alice", msg)), short(1000, 1001));
    let e = std_by_token(run(&mut chain, "bob", ExecuteMsg::Burn { amount: 2 }));
    assert_eq!(e, short(0, 2));
    run(&mut chain, "alice", allow("bob", 50, None)).unwrap();
    let msg = ExecuteMsg::BurnFrom { owner: "alice".to_string(), amount: 51 };
    assert_eq!(std_by_token(run(&mut chain, "bob", msg)), short(50, 51));
    let msg = ExecuteMsg::DecreaseAllowance {
        spender: "carol".to_string(),
        amount: 1,
        expires: None,
    };
    let e = std_by_token(run(&mut chain, "alice", msg));
    assert!(matches!(e, StdError::NotFound { .. }));
}

#[test]
fn a_refused_address_is_named_in_the_order_of_the_checks() {
    let mut chain = setup();
    let refused = |chain: &Chain, text: &str| {
        cosmwasm_std::Api::addr_validate(&chain.api, text).unwrap_err()
    };
    let (short, shouted) = (refused(&chain, "ab"), refused(&chain, "ABC"));
    assert_ne!(short, shouted);
    let msg = ExecuteMsg::Transfer { recipient: "ab".to_string(), amount: 1 };
    assert_eq!(std_by_token(run(&mut chain, "alice", msg)), short);
    // the recipient comes before the owner
    let msg = ExecuteMsg::TransferFrom {
        owner: "ABC".to_string(),
        recipient: "ab".to_string(),
        amount: 1,
    };
    assert_eq!(std_by_token(run(&mut chain, "bob", msg)), short);
    // and in a query the owner before the spender
    let msg = QueryMsg::Allowance { owner: "ABC".to_string(), spender: "ab".to_string() };
    match query(Deps { inner: chain.as_ref() }, env(), msg) {
        Err(WrapperError::Std(e)) => assert_eq!(e, shouted),
        other => panic!("not an error of the chain: {:?}", other),
    }
}

#[test]
fn the_same_bytes_fail_to_decode_for_the_same_reason() {
    let mut chain = setup();
    let key = cw20_base::state::TOKEN_INFO.as_slice().to_vec();
    cosmwasm_std::Storage::set(&mut chain.storage, &key, b"scrap");
    let reason = |e: StdError| match e {
        StdError::ParseErr { msg, .. } => msg,
        other => panic!("not a decoding error: {:?}", other),
    };
    let shown = query(Deps { inner: chain.as_ref() }, env(), QueryMsg::TokenInfo {});
    let asked = match shown {
        Err(WrapperError::Std(e)) => reason(e),
        other => panic!("not an error of the chain: {:?}", other),
    };
    let burned = reason(std_by_token(run(&mut chain, "alice", ExecuteMsg::Burn { amount: 1 })));
    assert_eq!(asked, burned);
    cosmwasm_std::Storage::remove(&mut chain.storage, &key);
    let shown = query(Deps { inner: chain.as_ref() }, env(), QueryMsg::TokenInfo {});
    assert!(matches!(shown, Err(WrapperError::Std(StdError::NotFound { .. }))));
}

#[test]
fn replies_of_the_token_are_handed_on_whole() {
    let mut chain = setup();
    let msg = ExecuteMsg::Transfer { recipient: "bob".to_string(), amount: 300 };
    let res = run(&mut chain, "alice", msg).unwrap();
    let expected = Response::new()
        .add_attribute("action", "transfer")
        .add_attribute("from", "alice")
        .add_attribute("to", "bob")
        .add_attribute("amount", "300");
    assert_eq!(res, expected);
}

#[test]
fn unreadable_entries_are_reported_as_such() {
    let mut chain = setup();
    let who = cosmwasm_std::Addr::unchecked("alice");
    let key = cw20_base::state::BALANCES.key(&who).to_vec();
    cosmwasm_std::Storage::set(&mut chain.storage, &key, b"scrap");
    by_token(run(&mut chain, "alice", ExecuteMsg::Burn { amount: 1 }));
    cosmwasm_std::Storage::set(&mut chain.storage, b"config", b"scrap");
    let res = run(&mut chain, "alice", ExecuteMsg::Wrap {});
    assert!(matches!(res, Err(WrapperError::Std(StdError::ParseErr { .. }))));
}

#[test]
fn unusual_texts_survive_storage() {
    let mut chain = setup();
    let msg = ExecuteMsg::SetFeeRecipient { new_recipient: "tre\"as\\ury\n".to_string() };
    run(&mut chain, "creator", msg).unwrap();
    match query(Deps { inner: chain.as_ref() }, env(), QueryMsg::Config {}) {
        Ok(QueryResponse::Config(c)) => assert_eq!(c.fee_recipient, "tre\"as\\ury\n"),
        other => panic!("not a config: {:?}", other),
    }
}

#[test]
fn flags_are_written_out() {
    assert_eq!(flag_to_string(true), "true");
    assert_eq!(flag_to_string(false), "false");
    let parsed: bool = from_json(flag_to_string(true).as_bytes()).unwrap();
    assert!(parsed);
}
