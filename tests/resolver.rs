use adapter::{
    coins_from_assets, instantiate, Asset, AssetInfo, Coin, Config, ContractError,
    CurrentHoldingsResponse, CurrentTotalLiquidity, InstantiateMsg, QueryKind, QueryMsg, Reply,
    Request, Resolver, Stage, Step,
};

fn config() -> Config {
    instantiate(InstantiateMsg {
        astroport_incentive_contract: "INC1".to_string(),
        concentrated_pool_address: "POOL1".to_string(),
    })
}

fn native(denom: &str, amount: u128) -> Asset {
    Asset { info: AssetInfo::NativeToken { denom: denom.to_string() }, amount }
}

fn coin(denom: &str, amount: u128) -> Coin {
    Coin { denom: denom.to_string(), amount }
}

fn ask(step: Step) -> Request {
    match step {
        Step::Ask { request } => request,
        other => panic!("expected a request, got {:?}", other),
    }
}

/// Runs a holdings query up to the withdrawal simulation request.
fn holdings_until_simulation(balance: u128, staked: u128) -> (Resolver, Step) {
    let (mut r, _) = Resolver::start(
        Some(config()),
        QueryMsg::CurrentHoldings { address: "alice".to_string() },
    );
    r.resume(Reply::Pair { liquidity_token: "LPTOK".to_string() });
    r.resume(Reply::Amount { amount: balance });
    let step = r.resume(Reply::Amount { amount: staked });
    (r, step)
}

#[test]
fn current_holdings_scenario() {
    let (mut r, step) = Resolver::start(
        Some(config()),
        QueryMsg::CurrentHoldings { address: "alice".to_string() },
    );
    assert_eq!(ask(step), Request::Pair { contract_addr: "POOL1".to_string() });
    let step = r.resume(Reply::Pair { liquidity_token: "LPTOK".to_string() });
    assert_eq!(
        ask(step),
        Request::Balance { address: "alice".to_string(), denom: "LPTOK".to_string() }
    );
    let step = r.resume(Reply::Amount { amount: 100 });
    assert_eq!(
        ask(step),
        Request::Deposit {
            contract_addr: "INC1".to_string(),
            lp_token: "LPTOK".to_string(),
            user: "alice".to_string(),
        }
    );
    let step = r.resume(Reply::Amount { amount: 50 });
    assert_eq!(
        ask(step),
        Request::SimulateWithdraw { contract_addr: "POOL1".to_string(), lp_amount: 150 }
    );
    let step = r.resume(Reply::Assets { assets: vec![native("TOKENA", 30), native("TOKENB", 45)] });
    assert_eq!(
        step,
        Step::Holdings {
            response: CurrentHoldingsResponse { coins: vec![coin("TOKENA", 30), coin("TOKENB", 45)] }
        }
    );
    assert_eq!(r.stage, Stage::Finished);
}

#[test]
fn total_liquidity_scenario() {
    let (mut r, step) = Resolver::start(Some(config()), QueryMsg::CurrentTotalLiquidity {});
    assert_eq!(ask(step), Request::Pool { contract_addr: "POOL1".to_string() });
    let step = r.resume(Reply::Assets {
        assets: vec![native("TOKENA", 10000), native("TOKENB", 20000)],
    });
    assert_eq!(
        step,
        Step::TotalLiquidity {
            response: CurrentTotalLiquidity {
                coins: vec![coin("TOKENA", 10000), coin("TOKENB", 20000)]
            }
        }
    );
}

#[test]
fn withdraw_amount_is_sum_of_held_and_staked() {
    let (_, step) = holdings_until_simulation(7, 35);
    assert_eq!(
        ask(step),
        Request::SimulateWithdraw { contract_addr: "POOL1".to_string(), lp_amount: 42 }
    );
}

#[test]
fn largest_sum_still_fits() {
    let (_, step) = holdings_until_simulation(u128::MAX - 5, 5);
    assert_eq!(
        ask(step),
        Request::SimulateWithdraw { contract_addr: "POOL1".to_string(), lp_amount: u128::MAX }
    );
}

#[test]
fn sum_overflow_fails() {
    let (r, step) = holdings_until_simulation(u128::MAX, 1);
    assert_eq!(step, Step::Failed { error: ContractError::Overflow });
    assert_eq!(r.stage, Stage::Finished);
}

#[test]
fn empty_position_still_simulates_zero() {
    let (mut r, step) = holdings_until_simulation(0, 0);
    assert_eq!(
        ask(step),
        Request::SimulateWithdraw { contract_addr: "POOL1".to_string(), lp_amount: 0 }
    );
    let step = r.resume(Reply::Assets { assets: vec![native("TOKENA", 0), native("TOKENB", 0)] });
    assert_eq!(
        step,
        Step::Holdings {
            response: CurrentHoldingsResponse { coins: vec![coin("TOKENA", 0), coin("TOKENB", 0)] }
        }
    );
}

#[test]
fn basket_keeps_order_and_duplicates() {
    let (mut r, _) = holdings_until_simulation(1, 2);
    let step = r.resume(Reply::Assets {
        assets: vec![
            native("ZED", 3),
            Asset { info: AssetInfo::Token { contract_addr: "cw20addr".to_string() }, amount: 1 },
            native("ZED", 2),
        ],
    });
    assert_eq!(
        step,
        Step::Holdings {
            response: CurrentHoldingsResponse {
                coins: vec![coin("ZED", 3), coin("cw20addr", 1), coin("ZED", 2)]
            }
        }
    );
}

#[test]
fn pair_failure_stops_before_ledger() {
    let (mut r, _) = Resolver::start(
        Some(config()),
        QueryMsg::CurrentHoldings { address: "alice".to_string() },
    );
    let step = r.resume(Reply::Failed { msg: "pool not found".to_string() });
    assert_eq!(
        step,
        Step::Failed {
            error: ContractError::QueryFailed {
                query: QueryKind::Pair,
                msg: "pool not found".to_string()
            }
        }
    );
    assert_eq!(r.stage, Stage::Finished);
}

#[test]
fn deposit_failure_is_reported() {
    let (mut r, _) = Resolver::start(
        Some(config()),
        QueryMsg::CurrentHoldings { address: "alice".to_string() },
    );
    r.resume(Reply::Pair { liquidity_token: "LPTOK".to_string() });
    r.resume(Reply::Amount { amount: 3 });
    let step = r.resume(Reply::Failed { msg: "no incentives".to_string() });
    assert_eq!(
        step,
        Step::Failed {
            error: ContractError::QueryFailed {
                query: QueryKind::Deposit,
                msg: "no incentives".to_string()
            }
        }
    );
}

#[test]
fn malformed_reply_is_reported() {
    let (mut r, _) = Resolver::start(Some(config()), QueryMsg::CurrentTotalLiquidity {});
    let step = r.resume(Reply::Amount { amount: 1 });
    assert_eq!(
        step,
        Step::Failed { error: ContractError::UnexpectedReply { query: QueryKind::Pool } }
    );
    assert_eq!(r.stage, Stage::Finished);
}

#[test]
fn uninitialized_holdings_fails_without_reads() {
    let (r, step) =
        Resolver::start(None, QueryMsg::CurrentHoldings { address: "alice".to_string() });
    assert_eq!(step, Step::Failed { error: ContractError::NotInitialized });
    assert_eq!(r.stage, Stage::Finished);
}

#[test]
fn uninitialized_total_liquidity_fails_without_reads() {
    let (r, step) = Resolver::start(None, QueryMsg::CurrentTotalLiquidity {});
    assert_eq!(step, Step::Failed { error: ContractError::NotInitialized });
    assert_eq!(r.stage, Stage::Finished);
}

#[test]
fn instantiate_stores_addresses_verbatim() {
    let cfg = config();
    assert_eq!(cfg.astroport_incentive_contract, "INC1");
    assert_eq!(cfg.concentrated_pool_address, "POOL1");
}

#[test]
fn asset_canonical_forms() {
    let token = AssetInfo::Token { contract_addr: "neutron1xyz".to_string() };
    let nat = AssetInfo::NativeToken { denom: "untrn".to_string() };
    assert_eq!(token.to_denom(), "neutron1xyz");
    assert_eq!(nat.to_denom(), "untrn");
}

#[test]
fn coins_from_no_assets_is_empty() {
    assert_eq!(coins_from_assets(vec![]), Vec::<Coin>::new());
}
