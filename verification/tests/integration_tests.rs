use mcp_ethereum_server::ethereum::{format_token_amount, EthereumService};
use mcp_ethereum_server::tools::get_tools;
use mcp_ethereum_server::uint256::Uint256;

#[test]
fn test_ethereum_service_creation() {
    let service = EthereumService::new(
        "http://localhost:8545".to_string(),
        "0x7a250d5630B4cF539739dF2C5dAcb4c659F2488D".to_string(),
        None,
    );
    assert!(service.is_ok());
}

#[test]
fn test_tools_definition() {
    let tools = get_tools();
    assert_eq!(tools.len(), 3);

    let tool_names: Vec<String> = tools.iter().map(|t| t.name.clone()).collect();
    assert!(tool_names.contains(&"get_balance".to_string()));
    assert!(tool_names.contains(&"get_token_price".to_string()));
    assert!(tool_names.contains(&"swap_tokens".to_string()));
}

#[test]
fn test_format_token_amount() {
    // a whole amount
    let amount = Uint256::from_u64(1000000000000000000u64); // 1 ETH
    let formatted = format_token_amount(amount, 18);
    assert_eq!(formatted, "1");

    // a fractional amount
    let amount = Uint256::from_u64(100000000000000000u64); // 0.1 ETH
    let formatted = format_token_amount(amount, 18);
    assert_eq!(formatted, "0.1");
}
