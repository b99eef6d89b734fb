use cosmwasm_std::testing::{mock_dependencies, MockApi, MockQuerier, MockStorage};
use cosmwasm_std::{
    from_json, Attribute, BankMsg, Coin as ChainCoin, CosmosMsg, OwnedDeps, Response, StdError,
    Uint128, WasmMsg,
};
use cw20::Cw20ExecuteMsg;
use tokenwrapper::contract::{execute, instantiate, query};
use tokenwrapper::error::{TokenError, WrapperError};
use tokenwrapper::limits::{checked_execute, checked_query};
use tokenwrapper::msg::{
    Coin, Cw20HookMsg, Cw20ReceiveMsg, Env, ExecuteMsg, InstantiateMsg, MessageInfo, QueryMsg,
    QueryResponse,
};
use tokenwrapper::state::{Deps, DepsMut};

type Chain = OwnedDeps<MockStorage, MockApi, MockQuerier>;

const NATIVE: &str = "uusd";
const ME: &str = "wrapper";
const CW20: &str = "cw20token";

fn env() -> Env {
    Env { height: 100, time: 1_000, contract: ME.to_string() }
}

fn info(sender: &str) -> MessageInfo {
    MessageInfo { sender: sender.to_string(), funds: vec![] }
}

fn paying(sender: &str, amount: u128, denom: &str) -> MessageInfo {
    let other = Coin { denom: "other".to_string(), amount: 5 };
    let coin = Coin { denom: denom.to_string(), amount };
    MessageInfo { sender: sender.to_string(), funds: vec![other, coin] }
}

fn setup_msg(fee: &str, limit: &str, allowed: u32) -> InstantiateMsg {
    InstantiateMsg {
        governer: None,
        fee_recipient: "treasury".to_string(),
        fee_percentage: fee.to_string(),
        native_token_denom: NATIVE.to_string(),
        is_native_allowed: allowed,
        wrapping_limit: limit.to_string(),
        name: "Wrapped".to_string(),
        symbol: "WRP".to_string(),
        decimals: 6,
    }
}

fn setup(fee: &str, limit: &str, allowed: u32) -> Chain {
    let mut chain = mock_dependencies();
    let msg = setup_msg(fee, limit, allowed);
    instantiate(&mut DepsMut { inner: chain.as_mut() }, env(), info("creator"), msg).unwrap();
    chain
}

fn run(chain: &mut Chain, info: MessageInfo, msg: ExecuteMsg) -> Result<Response, WrapperError> {
    execute(&mut DepsMut { inner: chain.as_mut() }, env(), info, msg)
}

fn ask(chain: &Chain, msg: QueryMsg) -> QueryResponse {
    query(Deps { inner: chain.as_ref() }, env(), msg).unwrap()
}

fn list(chain: &mut Chain, token: &str, nonce: u64) {
    let msg = ExecuteMsg::AddCw20TokenAddr { token: token.to_string(), nonce };
    run(chain, info("creator"), msg).unwrap();
}

fn balance(chain: &Chain, who: &str) -> u128 {
    match ask(chain, QueryMsg::Balance { address: who.to_string() }) {
        QueryResponse::Balance { balance } => balance,
        _ => panic!("not a balance"),
    }
}

fn total_supply(chain: &Chain) -> u128 {
    match ask(chain, QueryMsg::TokenInfo {}) {
        QueryResponse::TokenInfo(t) => t.total_supply,
        _ => panic!("not a token"),
    }
}

fn notice(sender: &str, amount: u128) -> ExecuteMsg {
    ExecuteMsg::Receive(Cw20ReceiveMsg {
        sender: sender.to_string(),
        amount,
        msg: Ok(Cw20HookMsg::Wrap {}),
    })
}

fn unwrap_msg(token: Option<&str>, amount: u128) -> ExecuteMsg {
    ExecuteMsg::Unwrap { token: token.map(|t| t.to_string()), amount }
}

fn attrs(pairs: &[(&str, &str)]) -> Vec<Attribute> {
    pairs.iter().map(|p| Attribute::new(p.0, p.1)).collect()
}

fn generic_text(res: Result<Response, WrapperError>) -> String {
    match res {
        Err(WrapperError::Generic(text)) => text,
        other => panic!("not refused in words: {:?}", other),
    }
}

fn bank_send(res: &Response) -> (String, Vec<ChainCoin>) {
    assert_eq!(res.messages.len(), 1);
    match &res.messages[0].msg {
        CosmosMsg::Bank(BankMsg::Send { to_address, amount }) => {
            (to_address.clone(), amount.clone())
        }
        other => panic!("not a bank message: {:?}", other),
    }
}

fn token_transfer(res: &Response) -> (String, String, u128) {
    assert_eq!(res.messages.len(), 1);
    match &res.messages[0].msg {
        CosmosMsg::Wasm(WasmMsg::Execute { contract_addr, msg, funds }) => {
            assert!(funds.is_empty());
            match from_json(msg).unwrap() {
                Cw20ExecuteMsg::Transfer { recipient, amount } => {
                    (contract_addr.clone(), recipient, amount.u128())
                }
                other => panic!("not a transfer: {:?}", other),
            }
        }
        other => panic!("not a call: {:?}", other),
    }
}

#[test]
fn wrap_native_mints_all_but_the_fee() {
    let mut chain = setup("1", "1000000", 1);
    let res = run(&mut chain, paying("alice", 100, NATIVE), ExecuteMsg::Wrap {}).unwrap();
    let expected = [("action", "wrap_native"), ("from", "alice"), ("minted", "99"), ("fee", "1")];
    assert_eq!(res.attributes, attrs(&expected));
    let coin = ChainCoin { denom: NATIVE.to_string(), amount: Uint128::new(1) };
    assert_eq!(bank_send(&res), ("treasury".to_string(), vec![coin]));
    assert!(res.events.is_empty());
    assert_eq!(res.data, None);
    assert_eq!(balance(&chain, "alice"), 99);
    assert_eq!(total_supply(&chain), 99);
}

#[test]
fn wrap_native_rounds_the_fee_down() {
    let mut chain = setup("3", "1000000", 1);
    let res = run(&mut chain, paying("alice", 99, NATIVE), ExecuteMsg::Wrap {}).unwrap();
    let expected = [("action", "wrap_native"), ("from", "alice"), ("minted", "97"), ("fee", "2")];
    assert_eq!(res.attributes, attrs(&expected));
}

#[test]
fn wrap_native_takes_the_first_coin_of_the_denomination() {
    let mut chain = setup("0", "1000000", 1);
    let coin = |amount: u128| Coin { denom: NATIVE.to_string(), amount };
    let sent = MessageInfo { sender: "alice".to_string(), funds: vec![coin(7), coin(9)] };
    run(&mut chain, sent, ExecuteMsg::Wrap {}).unwrap();
    assert_eq!(balance(&chain, "alice"), 7);
}

#[test]
fn other_coins_change_nothing_about_wrapping() {
    let coin = |denom: &str, amount: u128| Coin { denom: denom.to_string(), amount };
    let with = |funds: Vec<Coin>| MessageInfo { sender: "alice".to_string(), funds };
    let mut alone = setup("4", "1000000", 1);
    let expected = run(&mut alone, with(vec![coin(NATIVE, 50)]), ExecuteMsg::Wrap {}).unwrap();
    let mut among = setup("4", "1000000", 1);
    let funds = vec![
        coin("aaa", 9),
        coin("bbb", 0),
        coin(NATIVE, 50),
        coin(NATIVE, 60),
        coin("aaa", 70),
    ];
    let res = run(&mut among, with(funds), ExecuteMsg::Wrap {}).unwrap();
    assert_eq!(res, expected);
    assert_eq!(balance(&among, "alice"), 48);
    assert_eq!(balance(&alone, "alice"), 48);
    // the first one is refused although the second would do
    let funds = vec![coin(NATIVE, 0), coin(NATIVE, 60)];
    let res = run(&mut among, with(funds), ExecuteMsg::Wrap {});
    assert_eq!(generic_text(res), "Invalid native token amount");
}

#[test]
fn the_supply_follows_the_issued_amount_until_something_is_burned() {
    let mut chain = setup("10", "1000000", 1);
    let issued: cw_storage_plus::Item<Uint128> = cw_storage_plus::Item::new("total_supply");
    run(&mut chain, paying("alice", 1000, NATIVE), ExecuteMsg::Wrap {}).unwrap();
    run(&mut chain, info("alice"), unwrap_msg(None, 300)).unwrap();
    assert_eq!(total_supply(&chain), 600);
    assert_eq!(issued.load(&chain.storage), Ok(Uint128::new(600)));
    run(&mut chain, info("alice"), ExecuteMsg::Burn { amount: 100 }).unwrap();
    assert_eq!(total_supply(&chain), 500);
    assert_eq!(issued.load(&chain.storage), Ok(Uint128::new(600)));
}

#[test]
fn wrap_native_without_the_native_coin_lacks_funds() {
    let mut chain = setup("1", "1000000", 1);
    let res = run(&mut chain, paying("alice", 100, "ueur"), ExecuteMsg::Wrap {});
    assert!(matches!(res, Err(WrapperError::InsufficientFunds {})));
}

#[test]
fn wrap_native_is_refused_when_it_is_not_allowed() {
    let mut chain = setup("1", "1000000", 0);
    let res = run(&mut chain, paying("alice", 100, NATIVE), ExecuteMsg::Wrap {});
    assert_eq!(
        generic_text(res),
        "Wrapping native token is not allowed in this token wrapper"
    );
}

#[test]
fn wrap_native_refuses_zero_and_more_than_the_limit() {
    let mut chain = setup("1", "100", 1);
    for amount in [0u128, 101, u128::MAX] {
        let res = run(&mut chain, paying("alice", amount, NATIVE), ExecuteMsg::Wrap {});
        assert_eq!(generic_text(res), "Invalid native token amount");
    }
    run(&mut chain, paying("alice", 100, NATIVE), ExecuteMsg::Wrap {}).unwrap();
    // 99 are issued, and the amount counts with its fee
    let res = run(&mut chain, paying("alice", 2, NATIVE), ExecuteMsg::Wrap {});
    assert_eq!(generic_text(res), "Invalid native token amount");
    run(&mut chain, paying("alice", 1, NATIVE), ExecuteMsg::Wrap {}).unwrap();
    assert_eq!(balance(&chain, "alice"), 100);
}

#[test]
fn wrap_native_is_refused_by_the_token_when_the_fee_takes_all() {
    let mut chain = setup("100", "1000000", 1);
    let res = run(&mut chain, paying("alice", 100, NATIVE), ExecuteMsg::Wrap {});
    assert!(matches!(res, Err(WrapperError::Token(TokenError::InvalidZeroAmount {}))));
}

#[test]
fn wrap_before_the_contract_is_set_up_finds_no_config() {
    let mut chain = mock_dependencies();
    let res = run(&mut chain, paying("alice", 100, NATIVE), ExecuteMsg::Wrap {});
    assert!(matches!(res, Err(WrapperError::Std(StdError::NotFound { .. }))));
}

#[test]
fn wrap_cw20_mints_for_whoever_sent_the_tokens() {
    let mut chain = setup("2", "1000000", 0);
    list(&mut chain, CW20, 1);
    let res = run(&mut chain, info(CW20), notice("bob", 200)).unwrap();
    let expected = [("action", "wrap_cw20"), ("from", "bob"), ("minted", "196"), ("fee", "4")];
    assert_eq!(res.attributes, attrs(&expected));
    assert_eq!(token_transfer(&res), (CW20.to_string(), "treasury".to_string(), 4));
    assert_eq!(balance(&chain, "bob"), 196);
    assert_eq!(total_supply(&chain), 196);
}

#[test]
fn wrap_cw20_refuses_unlisted_tokens_and_bad_amounts() {
    let mut chain = setup("2", "1000", 0);
    let res = run(&mut chain, info(CW20), notice("bob", 200));
    assert_eq!(generic_text(res), "Invalid Cw20 token address");
    list(&mut chain, CW20, 1);
    for amount in [0u128, 1001] {
        let res = run(&mut chain, info(CW20), notice("bob", amount));
        assert_eq!(generic_text(res), "Invalid cw20 token");
    }
    let remove = ExecuteMsg::RemoveCw20TokenAddr { token: CW20.to_string(), nonce: 2 };
    run(&mut chain, info("creator"), remove).unwrap();
    let res = run(&mut chain, info(CW20), notice("bob", 200));
    assert_eq!(generic_text(res), "Invalid Cw20 token address");
}

#[test]
fn wrap_cw20_hands_the_decoding_error_on() {
    let mut chain = setup("2", "1000", 0);
    list(&mut chain, CW20, 1);
    let msg = ExecuteMsg::Receive(Cw20ReceiveMsg {
        sender: "bob".to_string(),
        amount: 10,
        msg: Err(cosmwasm_std::StdError::generic_err("no such hook")),
    });
    match run(&mut chain, info(CW20), msg) {
        Err(WrapperError::Std(e)) => {
            assert_eq!(e, cosmwasm_std::StdError::generic_err("no such hook"))
        }
        other => panic!("not the decoding error: {:?}", other),
    }
    assert_eq!(total_supply(&chain), 0);
}

#[test]
fn unwrap_native_pays_out_and_undoes_wrapping() {
    let mut chain = setup("1", "1000000", 1);
    run(&mut chain, paying("alice", 1000, NATIVE), ExecuteMsg::Wrap {}).unwrap();
    run(&mut chain, paying("alice", 100, NATIVE), ExecuteMsg::Wrap {}).unwrap();
    let res = run(&mut chain, info("alice"), unwrap_msg(None, 99)).unwrap();
    let expected =
        [("action", "unwrap_native"), ("from", "alice"), ("unwrap", "99"), ("refund", "99")];
    assert_eq!(res.attributes, attrs(&expected));
    let coin = ChainCoin { denom: NATIVE.to_string(), amount: Uint128::new(99) };
    assert_eq!(bank_send(&res), ("alice".to_string(), vec![coin]));
    assert_eq!(balance(&chain, "alice"), 990);
    assert_eq!(total_supply(&chain), 990);
}

#[test]
fn unwrap_native_is_refused() {
    let mut chain = setup("1", "1000000", 1);
    run(&mut chain, paying("alice", 100, NATIVE), ExecuteMsg::Wrap {}).unwrap();
    let res = run(&mut chain, info("alice"), unwrap_msg(None, 100));
    assert_eq!(generic_text(res), "Insufficient native token balance");
    let res = run(&mut chain, info("alice"), unwrap_msg(None, 0));
    assert!(matches!(res, Err(WrapperError::Token(_))));
    let forbid = ExecuteMsg::SetNativeAllowed { is_native_allowed: 0 };
    run(&mut chain, info("creator"), forbid).unwrap();
    let res = run(&mut chain, info("alice"), unwrap_msg(None, 99));
    assert_eq!(
        generic_text(res),
        "Unwrapping native token is not allowed in this token wrapper"
    );
    assert_eq!(balance(&chain, "alice"), 99);
}

#[test]
fn unwrap_cw20_has_the_token_transferred() {
    let mut chain = setup("2", "1000000", 0);
    list(&mut chain, CW20, 1);
    run(&mut chain, info(CW20), notice("bob", 200)).unwrap();
    let res = run(&mut chain, info("bob"), unwrap_msg(Some(CW20), 96)).unwrap();
    let expected = [("action", "unwrap_cw20"), ("from", "bob"), ("unwrap", "96"), ("refund", "96")];
    assert_eq!(res.attributes, attrs(&expected));
    assert_eq!(token_transfer(&res), (CW20.to_string(), "bob".to_string(), 96));
    assert_eq!(balance(&chain, "bob"), 100);
    assert_eq!(total_supply(&chain), 100);
    let res = run(&mut chain, info("bob"), unwrap_msg(Some(CW20), 101));
    assert_eq!(generic_text(res), "Insufficient cw20 token amount");
    let res = run(&mut chain, info("bob"), unwrap_msg(Some("other"), 1));
    assert_eq!(generic_text(res), "Invalid Cw20 token address");
}

#[test]
fn the_issued_amount_frees_room_under_the_limit() {
    let mut chain = setup("0", "100", 1);
    run(&mut chain, paying("alice", 100, NATIVE), ExecuteMsg::Wrap {}).unwrap();
    run(&mut chain, info("alice"), unwrap_msg(None, 40)).unwrap();
    run(&mut chain, paying("bob", 40, NATIVE), ExecuteMsg::Wrap {}).unwrap();
    // burning does not free room: the deposit is still there
    run(&mut chain, info("bob"), ExecuteMsg::Burn { amount: 40 }).unwrap();
    let res = run(&mut chain, paying("bob", 1, NATIVE), ExecuteMsg::Wrap {});
    assert_eq!(generic_text(res), "Invalid native token amount");
}

#[test]
fn fee_query_shows_what_wrapping_costs() {
    let mut chain = setup("7", "1000000", 1);
    let shown = ask(&chain, QueryMsg::FeeFromAmount { amount_to_wrap: "12345".to_string() });
    match shown {
        QueryResponse::FeeFromAmount(r) => {
            assert_eq!(r.amount_to_wrap, "12345");
            assert_eq!(r.fee_amt, "864");
        }
        other => panic!("not a fee: {:?}", other),
    }
    let res = run(&mut chain, paying("alice", 12345, NATIVE), ExecuteMsg::Wrap {}).unwrap();
    assert_eq!(res.attributes[3], Attribute::new("fee", "864"));
    let coin = ChainCoin { denom: NATIVE.to_string(), amount: Uint128::new(864) };
    assert_eq!(bank_send(&res), ("treasury".to_string(), vec![coin]));
    assert_eq!(balance(&chain, "alice"), 12345 - 864);
}

#[test]
fn amount_query_shows_what_leaves_the_target() {
    let mut chain = setup("7", "1000000", 1);
    let shown = ask(&chain, QueryMsg::GetAmountToWrap { target_amount: "1000".to_string() });
    match shown {
        QueryResponse::GetAmountToWrap(r) => {
            assert_eq!(r.target_amount, "1000");
            assert_eq!(r.amount_to_wrap, "1075");
        }
        other => panic!("not an amount: {:?}", other),
    }
    run(&mut chain, paying("alice", 1075, NATIVE), ExecuteMsg::Wrap {}).unwrap();
    assert_eq!(balance(&chain, "alice"), 1000);
}

#[test]
fn amount_queries_refuse_what_is_no_number() {
    let chain = setup("7", "1000000", 1);
    for text in ["", "abc", "-1", "340282366920938463463374607431768211456"] {
        let msg = QueryMsg::FeeFromAmount { amount_to_wrap: text.to_string() };
        let res = query(Deps { inner: chain.as_ref() }, env(), msg);
        assert!(matches!(res, Err(WrapperError::Generic(_))));
        let msg = QueryMsg::GetAmountToWrap { target_amount: text.to_string() };
        let res = query(Deps { inner: chain.as_ref() }, env(), msg);
        assert!(matches!(res, Err(WrapperError::Generic(_))));
    }
    let empty = mock_dependencies();
    let msg = QueryMsg::FeeFromAmount { amount_to_wrap: "1".to_string() };
    let res = query(Deps { inner: empty.as_ref() }, env(), msg);
    assert!(matches!(res, Err(WrapperError::Std(_))));
}

#[test]
fn fees_of_the_largest_amounts_are_exact() {
    let chain = setup("50", "1", 1);
    let text = u128::MAX.to_string();
    match ask(&chain, QueryMsg::FeeFromAmount { amount_to_wrap: text }) {
        QueryResponse::FeeFromAmount(r) => {
            assert_eq!(r.fee_amt, "170141183460469231731687303715884105727")
        }
        other => panic!("not a fee: {:?}", other),
    }
}

#[test]
fn checked_query_stops_where_no_amount_leaves_the_target() {
    let chain = setup("100", "1", 1);
    let msg = QueryMsg::GetAmountToWrap { target_amount: "5".to_string() };
    assert!(checked_query(Deps { inner: chain.as_ref() }, env(), msg).is_none());
    let chain = setup("50", "1", 1);
    let msg = QueryMsg::GetAmountToWrap { target_amount: u128::MAX.to_string() };
    assert!(checked_query(Deps { inner: chain.as_ref() }, env(), msg).is_none());
    let msg = QueryMsg::GetAmountToWrap { target_amount: "5".to_string() };
    match checked_query(Deps { inner: chain.as_ref() }, env(), msg) {
        Some(Ok(QueryResponse::GetAmountToWrap(r))) => assert_eq!(r.amount_to_wrap, "10"),
        other => panic!("not an amount: {:?}", other),
    }
}

#[test]
fn checked_execute_handles_what_fits() {
    let mut chain = setup("1", "1000000", 1);
    let mut deps = DepsMut { inner: chain.as_mut() };
    let res = checked_execute(&mut deps, env(), paying("alice", 100, NATIVE), ExecuteMsg::Wrap {});
    assert!(matches!(res, Some(Ok(_))));
    assert_eq!(balance(&chain, "alice"), 99);
}

#[test]
fn balances_add_up_and_are_covered_by_deposits() {
    let mut chain = setup("3", "1000000", 1);
    list(&mut chain, CW20, 1);
    run(&mut chain, paying("alice", 1000, NATIVE), ExecuteMsg::Wrap {}).unwrap();
    run(&mut chain, info(CW20), notice("bob", 500)).unwrap();
    let to_carol = ExecuteMsg::Transfer { recipient: "carol".to_string(), amount: 300 };
    run(&mut chain, info("alice"), to_carol).unwrap();
    run(&mut chain, info("carol"), unwrap_msg(Some(CW20), 120)).unwrap();
    run(&mut chain, info("bob"), ExecuteMsg::Burn { amount: 85 }).unwrap();
    assert_eq!(balance(&chain, "alice"), 670);
    assert_eq!(balance(&chain, "bob"), 400);
    assert_eq!(balance(&chain, "carol"), 180);
    assert_eq!(total_supply(&chain), 1250);
    let issued: cw_storage_plus::Item<Uint128> = cw_storage_plus::Item::new("total_supply");
    assert_eq!(issued.load(&chain.storage), Ok(Uint128::new(1335)));
}

#[test]
fn governing_moves_no_tokens() {
    let mut chain = setup("0", "1000", 1);
    run(&mut chain, paying("alice", 40, NATIVE), ExecuteMsg::Wrap {}).unwrap();
    list(&mut chain, CW20, 1);
    let limit = ExecuteMsg::UpdateLimit { new_limit: "10".to_string() };
    run(&mut chain, info("creator"), limit).unwrap();
    assert_eq!(balance(&chain, "alice"), 40);
    assert_eq!(total_supply(&chain), 40);
    // a limit below what is issued stops wrapping, not unwrapping
    let res = run(&mut chain, paying("alice", 1, NATIVE), ExecuteMsg::Wrap {});
    assert_eq!(generic_text(res), "Invalid native token amount");
    run(&mut chain, info("alice"), unwrap_msg(None, 40)).unwrap();
    assert_eq!(total_supply(&chain), 0);
}
