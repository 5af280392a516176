use mcp_ethereum_server::error::McpError;
use mcp_ethereum_server::ethereum::{
    min_amount_out, BalancesStep, ChainQuery, ChainReply, EthereumService, PriceEntry, Step,
    TokenBalance,
};
use mcp_ethereum_server::uint256::Uint256;

const ROUTER: &str = "0x7a250d5630B4cF539739dF2C5dAcb4c659F2488D";
const WALLET: &str = "0xd8dA6BF26964aF9D7eEd9e03E53415D37aA96045";
const DAI: &str = "0x6B175474E89094C44Da98b954EedeAC495271d0F";
const USDC: &str = "0xA0b86991c6218b36c1d19D4a2e9Eb0cE3606eB48";

fn service(api_key: Option<&str>) -> EthereumService {
    EthereumService::new("http://localhost:8545".to_string(), ROUTER.to_string(), api_key.map(|k| k.to_string()))
        .unwrap()
}

fn error_parts(e: &McpError) -> (&'static str, String) {
    match e {
        McpError::Ethereum(s) => ("ethereum", s.clone()),
        McpError::Http(s) => ("http", s.clone()),
        McpError::Serialization(s) => ("serialization", s.clone()),
        McpError::InvalidAddress(s) => ("address", s.clone()),
        McpError::InvalidAmount(s) => ("amount", s.clone()),
        McpError::TokenNotFound(s) => ("not_found", s.clone()),
        McpError::SwapSimulation(s) => ("swap", s.clone()),
        McpError::Config(s) => ("config", s.clone()),
        McpError::Unknown(s) => ("unknown", s.clone()),
    }
}

#[test]
fn service_refuses_bad_router() {
    let r = EthereumService::new("http://localhost:8545".to_string(), "0x1234".to_string(), None);
    let e = r.unwrap_err();
    let (kind, text) = error_parts(&e);
    assert_eq!(kind, "address");
    assert!(text.starts_with("Invalid Uniswap router address: "));
    assert_eq!(e.message(), format!("Invalid address: {}", text));
}

#[test]
fn service_refuses_bad_rpc_url() {
    // the URL is checked before the router address
    let e = EthereumService::new("localhost".to_string(), "0x1234".to_string(), None).unwrap_err();
    let (kind, text) = error_parts(&e);
    assert_eq!(kind, "config");
    assert_eq!(text, "Failed to create Ethereum provider: relative URL without a base");
    assert_eq!(e.message(), format!("Configuration error: {}", text));
    let e = EthereumService::new(String::new(), ROUTER.to_string(), None).unwrap_err();
    assert_eq!(error_parts(&e).0, "config");
}

#[test]
fn router_bytes_are_read_big_endian() {
    let s = service(None);
    assert_eq!(s.uniswap_router.bytes[0], 0x7a);
    assert_eq!(s.uniswap_router.bytes[19], 0x8d);
    // spaces are skipped, no prefix is needed
    let spaced = EthereumService::new(
        "http://localhost:8545".to_string(),
        "7a250d5630B4cF539739dF2C5dAcb4c659F2488D ".to_string(),
        None,
    )
        .unwrap();
    assert_eq!(spaced.uniswap_router.bytes, s.uniswap_router.bytes);
}

#[test]
fn eth_balance_flow() {
    let s = service(None);
    let mut q = s.get_eth_balance(WALLET);
    match q.next_step() {
        Step::Query(ChainQuery::EthBalance { account }) => assert_eq!(account.bytes[0], 0xd8),
        other => panic!("unexpected {:?}", other),
    }
    q.record(ChainReply::Amount(Ok(Uint256::from_u64(1_500_000_000_000_000_000))));
    match q.next_step() {
        Step::Done(Ok(text)) => assert_eq!(text, "1.500000000000000000"),
        other => panic!("unexpected {:?}", other),
    }
}

#[test]
fn eth_balance_errors() {
    let s = service(None);
    let q = s.get_eth_balance("not an address");
    match q.next_step() {
        Step::Done(Err(e)) => {
            let (kind, text) = error_parts(&e);
            assert_eq!(kind, "address");
            assert!(text.starts_with("Invalid Ethereum address: "));
        }
        other => panic!("unexpected {:?}", other),
    }
    let mut q = s.get_eth_balance(WALLET);
    // an answer of the wrong kind is ignored
    q.record(ChainReply::Decimals(Ok(18)));
    assert!(matches!(q.next_step(), Step::Query(ChainQuery::EthBalance { .. })));
    q.record(ChainReply::Amount(Err("connection refused".to_string())));
    match q.next_step() {
        Step::Done(Err(e)) => assert_eq!(error_parts(&e), ("ethereum", "connection refused".to_string())),
        other => panic!("unexpected {:?}", other),
    }
}

#[test]
fn token_balance_flow_with_defaults() {
    let s = service(None);
    let mut q = s.get_token_balance(DAI, WALLET);
    assert!(matches!(q.next_step(), Step::Query(ChainQuery::TokenBalanceOf { .. })));
    q.record(ChainReply::Amount(Ok(Uint256::from_u64(2_500_000))));
    assert!(matches!(q.next_step(), Step::Query(ChainQuery::TokenDecimals { .. })));
    q.record(ChainReply::Decimals(Ok(6)));
    assert!(matches!(q.next_step(), Step::Query(ChainQuery::TokenSymbol { .. })));
    q.record(ChainReply::Text(Err("reverted".to_string())));
    assert!(matches!(q.next_step(), Step::Query(ChainQuery::TokenName { .. })));
    q.record(ChainReply::Text(Err("reverted".to_string())));
    assert!(!q.overflows());
    match q.next_step() {
        Step::Done(Ok(b)) => {
            assert_eq!(b.token_address, DAI);
            assert_eq!(b.symbol, "UNKNOWN");
            assert_eq!(b.name, "Unknown Token");
            assert_eq!(b.balance, "2.5");
            assert_eq!(b.decimals, 6);
        }
        other => panic!("unexpected {:?}", other),
    }
}

#[test]
fn token_balance_errors_and_overflow() {
    let s = service(None);
    let q = s.get_token_balance(DAI, "0xzz");
    match q.next_step() {
        Step::Done(Err(e)) => assert!(error_parts(&e).1.starts_with("Invalid wallet address: ")),
        other => panic!("unexpected {:?}", other),
    }
    let mut q = s.get_token_balance(DAI, WALLET);
    q.record(ChainReply::Amount(Ok(Uint256::from_u64(1))));
    q.record(ChainReply::Decimals(Err("no decimals".to_string())));
    match q.next_step() {
        Step::Done(Err(e)) => assert_eq!(error_parts(&e), ("ethereum", "no decimals".to_string())),
        other => panic!("unexpected {:?}", other),
    }
    let mut q = s.get_token_balance(DAI, WALLET);
    q.record(ChainReply::Amount(Ok(Uint256::from_u64(1))));
    q.record(ChainReply::Decimals(Ok(200)));
    q.record(ChainReply::Text(Ok("X".to_string())));
    assert!(!q.overflows());
    q.record(ChainReply::Text(Ok("Y".to_string())));
    assert!(q.overflows());
}

fn balance(symbol: &str) -> TokenBalance {
    TokenBalance {
        token_address: DAI.to_string(),
        name: "Dai".to_string(),
        symbol: symbol.to_string(),
        balance: "1".to_string(),
        decimals: 18,
    }
}

#[test]
fn all_balances_skip_failed_tokens() {
    let s = service(None);
    let tokens = vec!["a".to_string(), "b".to_string(), "c".to_string()];
    let mut q = s.get_all_balances(WALLET, Some(tokens));
    match q.next_step() {
        BalancesStep::EthBalance(w) => assert_eq!(w, WALLET),
        other => panic!("unexpected {:?}", other),
    }
    q.record_eth_balance(Ok("2.000000000000000000".to_string()));
    match q.next_step() {
        BalancesStep::TokenBalance { token_address, wallet_address } => {
            assert_eq!(token_address, "a");
            assert_eq!(wallet_address, WALLET);
        }
        other => panic!("unexpected {:?}", other),
    }
    q.record_token_balance(Ok(balance("A")));
    q.record_token_balance(Err(McpError::InvalidAddress("bad".to_string())));
    match q.next_step() {
        BalancesStep::TokenBalance { token_address, .. } => assert_eq!(token_address, "c"),
        other => panic!("unexpected {:?}", other),
    }
    q.record_token_balance(Ok(balance("C")));
    // no more tokens are awaited
    q.record_token_balance(Ok(balance("D")));
    match q.next_step() {
        BalancesStep::Done(Ok(r)) => {
            assert_eq!(r.address, WALLET);
            assert_eq!(r.eth_balance, "2.000000000000000000");
            let symbols: Vec<String> = r.token_balances.iter().map(|b| b.symbol.clone()).collect();
            assert_eq!(symbols, vec!["A".to_string(), "C".to_string()]);
        }
        other => panic!("unexpected {:?}", other),
    }
}

#[test]
fn all_balances_stop_on_eth_failure() {
    let s = service(None);
    let mut q = s.get_all_balances(WALLET, None);
    q.record_eth_balance(Err(McpError::Ethereum("down".to_string())));
    match q.next_step() {
        BalancesStep::Done(Err(e)) => assert_eq!(error_parts(&e), ("ethereum", "down".to_string())),
        other => panic!("unexpected {:?}", other),
    }
    let mut q = s.get_all_balances(WALLET, None);
    q.record_eth_balance(Ok("0.000000000000000000".to_string()));
    match q.next_step() {
        BalancesStep::Done(Ok(r)) => assert!(r.token_balances.is_empty()),
        other => panic!("unexpected {:?}", other),
    }
}

#[test]
fn price_lookup_url_and_result() {
    let s = service(Some("KEY"));
    let mut q = s.get_token_price("ethereum");
    match q.next_step() {
        Step::Query(ChainQuery::PriceLookup { url }) => assert_eq!(
            url,
            "https://api.coingecko.com/api/v3/simple/price?ids=ethereum&vs_currencies=usd,eth&include_market_cap=true&include_last_updated_at=true&x_cg_demo_api_key=KEY"
        ),
        other => panic!("unexpected {:?}", other),
    }
    q.record(ChainReply::Prices(Ok(vec![
        PriceEntry { id: "bitcoin".to_string(), last_updated_at: None },
        PriceEntry { id: "ethereum".to_string(), last_updated_at: Some(1609459200) },
    ])));
    match q.next_step() {
        Step::Done(Ok(r)) => {
            assert_eq!(r.token, "ethereum");
            assert_eq!(r.last_updated, "2021-01-01T00:00:00+00:00");
            assert_eq!(r.entry, 1);
        }
        other => panic!("unexpected {:?}", other),
    }
}

#[test]
fn price_lookup_failures() {
    let s = service(None);
    let mut q = s.get_token_price("nothing");
    match q.next_step() {
        Step::Query(ChainQuery::PriceLookup { url }) => assert!(!url.contains("x_cg_demo_api_key")),
        other => panic!("unexpected {:?}", other),
    }
    q.record(ChainReply::Prices(Ok(vec![PriceEntry { id: "ethereum".to_string(), last_updated_at: None }])));
    match q.next_step() {
        Step::Done(Err(e)) => assert_eq!(error_parts(&e), ("not_found", "nothing".to_string())),
        other => panic!("unexpected {:?}", other),
    }
    let mut q = s.get_token_price("ethereum");
    q.record(ChainReply::Prices(Ok(vec![PriceEntry { id: "ethereum".to_string(), last_updated_at: Some(u64::MAX) }])));
    match q.next_step() {
        // u64::MAX read as i64 is -1: one second before the epoch
        Step::Done(Ok(r)) => assert_eq!(r.last_updated, "1969-12-31T23:59:59+00:00"),
        other => panic!("unexpected {:?}", other),
    }
    let mut q = s.get_token_price("ethereum");
    q.record(ChainReply::Prices(Ok(vec![PriceEntry { id: "ethereum".to_string(), last_updated_at: None }])));
    match q.next_step() {
        Step::Done(Ok(r)) => assert_eq!(r.last_updated, "unknown"),
        other => panic!("unexpected {:?}", other),
    }
    let mut q = s.get_token_price("ethereum");
    q.record(ChainReply::Prices(Err("timeout".to_string())));
    match q.next_step() {
        Step::Done(Err(e)) => assert_eq!(error_parts(&e), ("http", "timeout".to_string())),
        other => panic!("unexpected {:?}", other),
    }
}

#[test]
fn swap_simulation_flow() {
    let s = service(None);
    let mut q = s.simulate_swap(DAI, USDC, "1.5", 50);
    match q.next_step() {
        Step::Query(ChainQuery::TokenDecimals { token }) => assert_eq!(token.bytes[0], 0x6b),
        other => panic!("unexpected {:?}", other),
    }
    q.record(ChainReply::Decimals(Ok(18)));
    match q.next_step() {
        Step::Query(ChainQuery::TokenDecimals { token }) => assert_eq!(token.bytes[0], 0xa0),
        other => panic!("unexpected {:?}", other),
    }
    q.record(ChainReply::Decimals(Ok(6)));
    assert!(matches!(q.next_step(), Step::Query(ChainQuery::TokenSymbol { .. })));
    q.record(ChainReply::Text(Ok("DAI".to_string())));
    assert!(matches!(q.next_step(), Step::Query(ChainQuery::TokenSymbol { .. })));
    q.record(ChainReply::Text(Err("reverted".to_string())));
    match q.next_step() {
        Step::Query(ChainQuery::AmountsOut { router, amount_in, from, to }) => {
            assert_eq!(router.bytes[0], 0x7a);
            assert_eq!(amount_in, Uint256::from_u64(1_500_000_000_000_000_000));
            assert_eq!(from.bytes[0], 0x6b);
            assert_eq!(to.bytes[0], 0xa0);
        }
        other => panic!("unexpected {:?}", other),
    }
    q.record(ChainReply::Amounts(Ok(vec![Uint256::from_u64(1_500_000_000_000_000_000), Uint256::from_u64(1_500_000)])));
    assert!(matches!(q.next_step(), Step::Query(ChainQuery::GasPrice)));
    q.record(ChainReply::Amount(Ok(Uint256::from_u64(20_000_000_000))));
    assert!(!q.overflows());
    match q.next_step() {
        Step::Done(Ok(r)) => {
            assert_eq!(r.from_token, format!("DAI ({})", DAI));
            assert_eq!(r.to_token, format!("UNKNOWN ({})", USDC));
            assert_eq!(r.amount_in, "1.5");
            assert_eq!(r.expected_amount_out, "1.5");
            assert_eq!(r.min_amount_out, "1.4925");
            assert_eq!(r.gas_estimate, 200000);
            assert_eq!(r.gas_cost_eth, "0.004000000000000000");
            assert!(r.gas_cost_usd.is_none());
            assert_eq!(r.route, vec!["DAI".to_string(), "UNKNOWN".to_string()]);
            assert!(r.success);
        }
        other => panic!("unexpected {:?}", other),
    }
}

#[test]
fn swap_simulation_errors() {
    let s = service(None);
    let q = s.simulate_swap("0x1", USDC, "1", 50);
    match q.next_step() {
        Step::Done(Err(e)) => assert!(error_parts(&e).1.starts_with("Invalid from_token address: ")),
        other => panic!("unexpected {:?}", other),
    }
    let q = s.simulate_swap(DAI, USDC, "1.0000000000000000001", 50);
    match q.next_step() {
        Step::Done(Err(e)) => {
            assert_eq!(error_parts(&e), ("amount", "Too many decimal places: 19 > 18".to_string()));
            assert_eq!(e.message(), "Invalid amount: Too many decimal places: 19 > 18");
        }
        other => panic!("unexpected {:?}", other),
    }
    let mut q = s.simulate_swap(DAI, USDC, "1", 50);
    q.record(ChainReply::Decimals(Ok(18)));
    q.record(ChainReply::Decimals(Ok(6)));
    q.record(ChainReply::Text(Ok("DAI".to_string())));
    q.record(ChainReply::Text(Ok("USDC".to_string())));
    q.record(ChainReply::Amounts(Ok(vec![Uint256::from_u64(1)])));
    match q.next_step() {
        Step::Done(Err(e)) => {
            assert_eq!(error_parts(&e), ("swap", "Invalid amounts returned from router".to_string()))
        }
        other => panic!("unexpected {:?}", other),
    }
    let mut q = s.simulate_swap(DAI, USDC, "1", 50);
    q.record(ChainReply::Decimals(Ok(18)));
    q.record(ChainReply::Decimals(Ok(6)));
    q.record(ChainReply::Text(Ok("DAI".to_string())));
    q.record(ChainReply::Text(Ok("USDC".to_string())));
    q.record(ChainReply::Amounts(Err("INSUFFICIENT_LIQUIDITY".to_string())));
    match q.next_step() {
        Step::Done(Err(e)) => assert_eq!(
            error_parts(&e),
            ("swap", "Failed to simulate swap: INSUFFICIENT_LIQUIDITY".to_string())
        ),
        other => panic!("unexpected {:?}", other),
    }
}

#[test]
fn swap_slippage_above_full_overflows() {
    let s = service(None);
    let mut q = s.simulate_swap(DAI, USDC, "1", 10001);
    q.record(ChainReply::Decimals(Ok(18)));
    q.record(ChainReply::Decimals(Ok(6)));
    q.record(ChainReply::Text(Ok("DAI".to_string())));
    q.record(ChainReply::Text(Ok("USDC".to_string())));
    assert!(!q.overflows());
    q.record(ChainReply::Amounts(Ok(vec![Uint256::from_u64(1), Uint256::from_u64(2)])));
    assert!(q.overflows());
}

#[test]
fn min_amount_out_stays_within_expected() {
    let expected = Uint256::from_u64(1000);
    assert_eq!(min_amount_out(&expected, 0), Uint256::from_u64(1000));
    assert_eq!(min_amount_out(&expected, 50), Uint256::from_u64(995));
    assert_eq!(min_amount_out(&expected, 100), Uint256::from_u64(990));
    assert_eq!(min_amount_out(&expected, 10000), Uint256::from_u64(0));
    assert_eq!(min_amount_out(&Uint256::from_u64(3), 50), Uint256::from_u64(2));
}
