use cosmwasm_std::testing::{mock_dependencies, MockApi, MockQuerier, MockStorage};
use cosmwasm_std::{Attribute, OwnedDeps, Response, StdError};
use tokenwrapper::contract::{execute, instantiate, query};
use tokenwrapper::error::WrapperError;
use tokenwrapper::governance::parse_fee_percentage;
use tokenwrapper::msg::{
    ConfigResponse, Env, ExecuteMsg, InstantiateMsg, MessageInfo, QueryMsg, QueryResponse,
};
use tokenwrapper::state::{Deps, DepsMut};
use tokenwrapper::utils::{get_amount_to_wrap, get_fee_from_amount};

type Chain = OwnedDeps<MockStorage, MockApi, MockQuerier>;

fn env() -> Env {
    Env { height: 100, time: 1_000, contract: "wrapper".to_string() }
}

fn info(sender: &str) -> MessageInfo {
    MessageInfo { sender: sender.to_string(), funds: vec![] }
}

fn setup_msg() -> InstantiateMsg {
    InstantiateMsg {
        governer: Some("governer".to_string()),
        fee_recipient: "treasury".to_string(),
        fee_percentage: "1".to_string(),
        native_token_denom: "uusd".to_string(),
        is_native_allowed: 1,
        wrapping_limit: "5000000".to_string(),
        name: "Wrapped".to_string(),
        symbol: "WRP".to_string(),
        decimals: 6,
    }
}

fn start(msg: InstantiateMsg) -> (Chain, Result<Response, WrapperError>) {
    let mut chain = mock_dependencies();
    let res = instantiate(&mut DepsMut { inner: chain.as_mut() }, env(), info("creator"), msg);
    (chain, res)
}

fn setup() -> Chain {
    let (chain, res) = start(setup_msg());
    res.unwrap();
    chain
}

fn run(chain: &mut Chain, sender: &str, msg: ExecuteMsg) -> Result<Response, WrapperError> {
    execute(&mut DepsMut { inner: chain.as_mut() }, env(), info(sender), msg)
}

fn config(chain: &Chain) -> ConfigResponse {
    match query(Deps { inner: chain.as_ref() }, env(), QueryMsg::Config {}) {
        Ok(QueryResponse::Config(c)) => c,
        other => panic!("not a config: {:?}", other),
    }
}

fn reports(res: Response, method: &str, key: &str, value: &str) {
    assert!(res.messages.is_empty());
    let expected = vec![Attribute::new("method", method), Attribute::new(key, value)];
    assert_eq!(res.attributes, expected);
    assert!(res.events.is_empty());
    assert_eq!(res.data, None);
}

fn generic_text(res: Result<Response, WrapperError>) -> String {
    match res {
        Err(WrapperError::Generic(text)) => text,
        other => panic!("not refused in words: {:?}", other),
    }
}

fn is_std(res: Result<Response, WrapperError>) -> bool {
    matches!(res, Err(WrapperError::Std(_)))
}

fn add(token: &str, nonce: u64) -> ExecuteMsg {
    ExecuteMsg::AddCw20TokenAddr { token: token.to_string(), nonce }
}

fn remove(token: &str, nonce: u64) -> ExecuteMsg {
    ExecuteMsg::RemoveCw20TokenAddr { token: token.to_string(), nonce }
}

#[test]
fn instantiate_stores_the_settings() {
    let (chain, res) = start(setup_msg());
    let res = res.unwrap();
    assert_eq!(res, Response::default());
    let c = config(&chain);
    assert_eq!(c.governer, "governer");
    assert_eq!(c.native_token_denom, "uusd");
    assert_eq!(c.fee_recipient, "treasury");
    assert_eq!(c.fee_percentage, "0.01");
    assert_eq!(c.is_native_allowed, "true");
    assert_eq!(c.wrapping_limit, "5000000");
    assert_eq!(c.proposal_nonce, "0");
    match query(Deps { inner: chain.as_ref() }, env(), QueryMsg::TokenInfo {}) {
        Ok(QueryResponse::TokenInfo(t)) => {
            assert_eq!(t.name, "Wrapped");
            assert_eq!(t.symbol, "WRP");
            assert_eq!(t.decimals, 6);
            assert_eq!(t.total_supply, 0);
        }
        other => panic!("not a token: {:?}", other),
    }
    let version = cw2::get_contract_version(&chain.storage).unwrap();
    assert_eq!(version.contract, "crates.io:cosmwasm-tokenwrapper");
    assert_eq!(version.version, "0.1.0");
    let token = cw20_base::state::TOKEN_INFO.load(&chain.storage).unwrap();
    let mint = token.mint.unwrap();
    assert_eq!(mint.minter, "wrapper");
    assert_eq!(mint.cap, None);
}

#[test]
fn instantiate_without_a_governer_takes_the_sender() {
    let mut msg = setup_msg();
    msg.governer = None;
    let (chain, res) = start(msg);
    res.unwrap();
    assert_eq!(config(&chain).governer, "creator");
}

#[test]
fn instantiate_refuses_bad_addresses_and_numbers() {
    let mut msg = setup_msg();
    msg.governer = Some("X".to_string());
    assert!(is_std(start(msg).1));
    let mut msg = setup_msg();
    msg.fee_recipient = "X".to_string();
    assert!(is_std(start(msg).1));
    let mut msg = setup_msg();
    msg.fee_percentage = "101".to_string();
    assert_eq!(generic_text(start(msg).1), "Percentage should be in range [0, 100]");
    let mut msg = setup_msg();
    msg.fee_percentage = "1.5".to_string();
    assert_eq!(generic_text(start(msg).1), "invalid digit found in string");
    let mut msg = setup_msg();
    msg.wrapping_limit = "".to_string();
    assert_eq!(generic_text(start(msg).1), "cannot parse integer from empty string");
}

#[test]
fn a_contract_that_failed_to_start_has_no_settings() {
    let mut msg = setup_msg();
    msg.wrapping_limit = "many".to_string();
    let (chain, res) = start(msg);
    assert!(res.is_err());
    let shown = query(Deps { inner: chain.as_ref() }, env(), QueryMsg::Config {});
    assert!(matches!(shown, Err(WrapperError::Std(StdError::NotFound { .. }))));
}

#[test]
fn set_governer_hands_the_contract_over() {
    let mut chain = setup();
    let msg = || ExecuteMsg::SetGoverner { new_governer: "heiress".to_string() };
    let res = run(&mut chain, "creator", msg());
    assert!(matches!(res, Err(WrapperError::Unauthorized {})));
    let res = run(&mut chain, "governer", msg()).unwrap();
    reports(res, "set_governer", "new_governer", "heiress");
    assert_eq!(config(&chain).governer, "heiress");
    let res = run(&mut chain, "governer", msg());
    assert!(matches!(res, Err(WrapperError::Unauthorized {})));
    let bad = ExecuteMsg::SetGoverner { new_governer: "X".to_string() };
    assert!(is_std(run(&mut chain, "heiress", bad)));
    assert_eq!(config(&chain).governer, "heiress");
}

#[test]
fn an_invalid_sender_is_refused_by_the_chain() {
    let mut chain = setup();
    let msg = ExecuteMsg::SetNativeAllowed { is_native_allowed: 0 };
    assert!(is_std(run(&mut chain, "X", msg)));
}

#[test]
fn set_native_allowed_takes_any_nonzero_number() {
    let mut chain = setup();
    let msg = ExecuteMsg::SetNativeAllowed { is_native_allowed: 0 };
    let res = run(&mut chain, "governer", msg).unwrap();
    reports(res, "set_native_allowed", "is_native_allowed", "false");
    assert_eq!(config(&chain).is_native_allowed, "false");
    let msg = ExecuteMsg::SetNativeAllowed { is_native_allowed: 7 };
    let res = run(&mut chain, "governer", msg).unwrap();
    reports(res, "set_native_allowed", "is_native_allowed", "true");
    assert_eq!(config(&chain).is_native_allowed, "true");
    let msg = ExecuteMsg::SetNativeAllowed { is_native_allowed: 0 };
    let res = run(&mut chain, "mallory", msg);
    assert!(matches!(res, Err(WrapperError::Unauthorized {})));
}

#[test]
fn update_limit_reads_a_number() {
    let mut chain = setup();
    let msg = |text: &str| ExecuteMsg::UpdateLimit { new_limit: text.to_string() };
    let res = run(&mut chain, "governer", msg("+007")).unwrap();
    reports(res, "set_wrapping_limit", "new_limit", "7");
    assert_eq!(config(&chain).wrapping_limit, "7");
    // the number is read before the sender is looked at
    let text = generic_text(run(&mut chain, "mallory", msg("x")));
    assert_eq!(text, "invalid digit found in string");
    let res = run(&mut chain, "mallory", msg("8"));
    assert!(matches!(res, Err(WrapperError::Unauthorized {})));
    let text = generic_text(run(&mut chain, "governer", msg("999999999999999999999999999999999999999")));
    assert_eq!(text, "number too large to fit in target type");
    let max = u128::MAX.to_string();
    run(&mut chain, "governer", msg(&max)).unwrap();
    assert_eq!(config(&chain).wrapping_limit, max);
}

#[test]
fn set_fee_reads_a_percentage() {
    let mut chain = setup();
    let msg = |text: &str| ExecuteMsg::SetFee { new_fee_perc: text.to_string() };
    for (text, shown) in [("0", "0"), ("5", "0.05"), ("50", "0.5"), ("100", "1"), ("99", "0.99")] {
        let res = run(&mut chain, "governer", msg(text)).unwrap();
        reports(res, "set_fee", "new_fee_perc", shown);
        assert_eq!(config(&chain).fee_percentage, shown);
    }
    let text = generic_text(run(&mut chain, "governer", msg("101")));
    assert_eq!(text, "Percentage should be in range [0, 100]");
    let text = generic_text(run(&mut chain, "governer", msg("18446744073709551616")));
    assert_eq!(text, "number too large to fit in target type");
    let res = run(&mut chain, "mallory", msg("3"));
    assert!(matches!(res, Err(WrapperError::Unauthorized {})));
    assert_eq!(config(&chain).fee_percentage, "0.99");
}

#[test]
fn set_fee_recipient_checks_the_address_first() {
    let mut chain = setup();
    let msg = |who: &str| ExecuteMsg::SetFeeRecipient { new_recipient: who.to_string() };
    assert!(is_std(run(&mut chain, "mallory", msg("X"))));
    let res = run(&mut chain, "mallory", msg("vault"));
    assert!(matches!(res, Err(WrapperError::Unauthorized {})));
    let res = run(&mut chain, "governer", msg("vault")).unwrap();
    reports(res, "set_fee_recipient", "new_recipient", "vault");
    assert_eq!(config(&chain).fee_recipient, "vault");
}

/// The error that the chain gives for a text that it does not accept.
fn refused(chain: &Chain, text: &str) -> StdError {
    cosmwasm_std::Api::addr_validate(&chain.api, text).unwrap_err()
}

fn std_error(res: Result<Response, WrapperError>) -> StdError {
    match res {
        Err(WrapperError::Std(e)) => e,
        other => panic!("not an error of the chain: {:?}", other),
    }
}

#[test]
fn a_refused_address_is_answered_with_the_error_of_the_chain() {
    let mut chain = setup();
    let (short, shouted) = (refused(&chain, "ab"), refused(&chain, "ABC"));
    assert_ne!(short, shouted);
    for (text, expected) in [("ab", &short), ("ABC", &shouted)] {
        let msg = ExecuteMsg::SetFeeRecipient { new_recipient: text.to_string() };
        assert_eq!(std_error(run(&mut chain, "mallory", msg)), *expected);
        let msg = ExecuteMsg::SetGoverner { new_governer: text.to_string() };
        assert_eq!(std_error(run(&mut chain, "governer", msg)), *expected);
        let msg = ExecuteMsg::SetNativeAllowed { is_native_allowed: 1 };
        assert_eq!(std_error(run(&mut chain, text, msg)), *expected);
        assert_eq!(std_error(run(&mut chain, "governer", add(text, 1))), *expected);
        assert_eq!(std_error(run(&mut chain, "governer", remove(text, 1))), *expected);
        let mut msg = setup_msg();
        msg.fee_recipient = text.to_string();
        assert_eq!(std_error(start(msg).1), *expected);
    }
    // the governer is looked at before the fee recipient
    let mut msg = setup_msg();
    msg.governer = Some("ab".to_string());
    msg.fee_recipient = "ABC".to_string();
    assert_eq!(std_error(start(msg).1), short);
}

#[test]
fn setting_one_thing_leaves_the_others_as_they_were() {
    let mut chain = setup();
    let before = config(&chain);
    let msg = ExecuteMsg::SetFee { new_fee_perc: "9".to_string() };
    run(&mut chain, "governer", msg).unwrap();
    let after = config(&chain);
    assert_eq!(after.fee_percentage, "0.09");
    assert_eq!(after.governer, before.governer);
    assert_eq!(after.native_token_denom, before.native_token_denom);
    assert_eq!(after.fee_recipient, before.fee_recipient);
    assert_eq!(after.is_native_allowed, before.is_native_allowed);
    assert_eq!(after.wrapping_limit, before.wrapping_limit);
    assert_eq!(after.proposal_nonce, before.proposal_nonce);
}

#[test]
fn tokens_are_added_with_the_next_nonce() {
    let mut chain = setup();
    assert!(is_std(run(&mut chain, "governer", add("X", 1))));
    let res = run(&mut chain, "mallory", add("cw20token", 1));
    assert!(matches!(res, Err(WrapperError::Unauthorized {})));
    for nonce in [0u64, 2] {
        let text = generic_text(run(&mut chain, "governer", add("cw20token", nonce)));
        assert_eq!(text, "Nonce must increment by 1");
    }
    let res = run(&mut chain, "governer", add("cw20token", 1)).unwrap();
    reports(res, "add_token", "token", "cw20token");
    assert_eq!(config(&chain).proposal_nonce, "1");
    // the same nonce does not serve again
    let text = generic_text(run(&mut chain, "governer", add("othertoken", 1)));
    assert_eq!(text, "Nonce must increment by 1");
    let text = generic_text(run(&mut chain, "governer", add("cw20token", 2)));
    assert_eq!(text, "Token must not be valid");
    run(&mut chain, "governer", add("othertoken", 2)).unwrap();
    assert_eq!(config(&chain).proposal_nonce, "2");
}

#[test]
fn a_nonce_does_not_serve_again_later() {
    let mut chain = setup();
    run(&mut chain, "governer", add("tokenone", 1)).unwrap();
    run(&mut chain, "governer", add("tokentwo", 2)).unwrap();
    let heir = ExecuteMsg::SetGoverner { new_governer: "heiress".to_string() };
    run(&mut chain, "governer", heir).unwrap();
    run(&mut chain, "heiress", remove("tokenone", 3)).unwrap();
    for nonce in [0u64, 1, 2, 3] {
        let text = generic_text(run(&mut chain, "heiress", add("tokenthree", nonce)));
        assert_eq!(text, "Nonce must increment by 1");
        let text = generic_text(run(&mut chain, "heiress", remove("tokentwo", nonce)));
        assert_eq!(text, "Nonce must increment by 1");
    }
    assert_eq!(config(&chain).proposal_nonce, "3");
}

#[test]
fn a_removed_token_cannot_be_added_again() {
    let mut chain = setup();
    let res = run(&mut chain, "governer", remove("cw20token", 1));
    assert!(matches!(res, Err(WrapperError::NotInitialized)));
    assert!(is_std(run(&mut chain, "governer", remove("X", 1))));
    run(&mut chain, "governer", add("cw20token", 1)).unwrap();
    let res = run(&mut chain, "mallory", remove("cw20token", 2));
    assert!(matches!(res, Err(WrapperError::Unauthorized {})));
    let text = generic_text(run(&mut chain, "governer", remove("cw20token", 1)));
    assert_eq!(text, "Nonce must increment by 1");
    let res = run(&mut chain, "governer", remove("cw20token", 2)).unwrap();
    reports(res, "remove_token", "token", "cw20token");
    assert_eq!(config(&chain).proposal_nonce, "2");
    let text = generic_text(run(&mut chain, "governer", remove("cw20token", 3)));
    assert_eq!(text, "Token must be valid");
    let text = generic_text(run(&mut chain, "governer", add("cw20token", 3)));
    assert_eq!(text, "Token must not be valid");
    // nor later, under another governer
    run(&mut chain, "governer", add("othertoken", 3)).unwrap();
    let heir = ExecuteMsg::SetGoverner { new_governer: "heiress".to_string() };
    run(&mut chain, "governer", heir).unwrap();
    let text = generic_text(run(&mut chain, "heiress", add("cw20token", 4)));
    assert_eq!(text, "Token must not be valid");
    let text = generic_text(run(&mut chain, "heiress", remove("cw20token", 4)));
    assert_eq!(text, "Token must be valid");
    // the record of listed tokens keeps it
    let historical: cw_storage_plus::Map<cosmwasm_std::Addr, bool> =
        cw_storage_plus::Map::new("historical_tokens");
    let token = cosmwasm_std::Addr::unchecked("cw20token");
    assert_eq!(historical.load(&chain.storage, token), Ok(true));
}

#[test]
fn fee_formulas() {
    let one_percent = parse_fee_percentage("1").unwrap();
    assert_eq!(one_percent, 10_000_000_000_000_000);
    assert_eq!(get_fee_from_amount(199, one_percent), 1);
    assert_eq!(get_fee_from_amount(200, one_percent), 2);
    assert_eq!(get_amount_to_wrap(99, one_percent), 100);
    assert_eq!(get_amount_to_wrap(100, one_percent), 101);
    assert_eq!(get_fee_from_amount(101, one_percent), 1);
}
