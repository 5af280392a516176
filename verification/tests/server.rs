use mcp_ethereum_server::error::McpError;
use mcp_ethereum_server::ethereum::EthereumService;
use mcp_ethereum_server::logging::{log_level_from_name, LogLevel};
use mcp_ethereum_server::server::{ArgValue, Argument, CallToolRequest, EthereumMCPServer, ToolCall};
use mcp_ethereum_server::tools::{create_text_content, get_tools, ParamKind};

fn server() -> EthereumMCPServer {
    EthereumMCPServer::new(
        EthereumService::new(
            "http://localhost:8545".to_string(),
            "0x7a250d5630B4cF539739dF2C5dAcb4c659F2488D".to_string(),
            None,
        )
        .unwrap(),
    )
}

fn arg(name: &str, value: ArgValue) -> Argument {
    Argument { name: name.to_string(), value }
}

fn text(s: &str) -> ArgValue {
    ArgValue::Text(s.to_string())
}

fn config_error(r: Result<ToolCall, McpError>) -> String {
    match r {
        Err(McpError::Config(s)) => s,
        other => panic!("unexpected {:?}", other),
    }
}

#[test]
fn get_balance_call() {
    let request = CallToolRequest {
        name: "get_balance".to_string(),
        arguments: Some(vec![
            arg("address", text("0xabc")),
            arg("token_addresses", ArgValue::List(vec![Some("t1".to_string()), None, Some("t2".to_string())])),
        ]),
    };
    match server().handle_call_tool(&request) {
        Ok(ToolCall::GetBalance { address, token_addresses }) => {
            assert_eq!(address, "0xabc");
            assert_eq!(token_addresses, Some(vec!["t1".to_string(), "t2".to_string()]));
        }
        other => panic!("unexpected {:?}", other),
    }
    let request = CallToolRequest {
        name: "get_balance".to_string(),
        arguments: Some(vec![arg("address", text("0xabc")), arg("token_addresses", text("t1"))]),
    };
    match server().handle_call_tool(&request) {
        Ok(ToolCall::GetBalance { token_addresses, .. }) => assert_eq!(token_addresses, None),
        other => panic!("unexpected {:?}", other),
    }
}

#[test]
fn missing_parameters() {
    let request = CallToolRequest { name: "get_balance".to_string(), arguments: None };
    assert_eq!(config_error(server().handle_call_tool(&request)), "Missing required parameter: address");
    let request = CallToolRequest {
        name: "get_token_price".to_string(),
        arguments: Some(vec![arg("token_identifier", ArgValue::Number { hundredths: 5 })]),
    };
    assert_eq!(config_error(server().handle_call_tool(&request)), "Missing required parameter: token_identifier");
    let request = CallToolRequest {
        name: "swap_tokens".to_string(),
        arguments: Some(vec![arg("from_token", text("a")), arg("amount", text("1"))]),
    };
    assert_eq!(config_error(server().handle_call_tool(&request)), "Missing required parameter: to_token");
}

#[test]
fn unknown_tool() {
    let request = CallToolRequest { name: "transfer".to_string(), arguments: None };
    let e = server().handle_call_tool(&request).unwrap_err();
    assert_eq!(e.message(), "Configuration error: Unknown tool: transfer");
    let rpc = e.to_rpc_error();
    assert_eq!(rpc.code, -32000);
    assert_eq!(rpc.message, "Configuration error: Unknown tool: transfer");
}

#[test]
fn swap_call_slippage() {
    let base = vec![arg("from_token", text("a")), arg("to_token", text("b")), arg("amount", text("1.5"))];
    let request = CallToolRequest { name: "swap_tokens".to_string(), arguments: Some(base.clone()) };
    match server().handle_call_tool(&request) {
        Ok(ToolCall::SwapTokens { from_token, to_token, amount, slippage_bps }) => {
            assert_eq!((from_token.as_str(), to_token.as_str(), amount.as_str()), ("a", "b", "1.5"));
            assert_eq!(slippage_bps, 50);
        }
        other => panic!("unexpected {:?}", other),
    }
    let mut with_slippage = base.clone();
    with_slippage.push(arg("slippage_tolerance", ArgValue::Number { hundredths: 100 }));
    let request = CallToolRequest { name: "swap_tokens".to_string(), arguments: Some(with_slippage) };
    match server().handle_call_tool(&request) {
        Ok(ToolCall::SwapTokens { slippage_bps, .. }) => assert_eq!(slippage_bps, 100),
        other => panic!("unexpected {:?}", other),
    }
    let mut wrong_type = base;
    wrong_type.push(arg("slippage_tolerance", text("1")));
    let request = CallToolRequest { name: "swap_tokens".to_string(), arguments: Some(wrong_type) };
    match server().handle_call_tool(&request) {
        Ok(ToolCall::SwapTokens { slippage_bps, .. }) => assert_eq!(slippage_bps, 50),
        other => panic!("unexpected {:?}", other),
    }
}

#[test]
fn listed_tools_are_served() {
    for tool in get_tools() {
        let arguments: Vec<Argument> = tool
            .parameters
            .iter()
            .filter(|p| p.required)
            .map(|p| arg(&p.name, text("x")))
            .collect();
        let request = CallToolRequest { name: tool.name.clone(), arguments: Some(arguments) };
        assert!(server().handle_call_tool(&request).is_ok(), "{}", tool.name);
        let request = CallToolRequest { name: tool.name.clone(), arguments: None };
        assert!(server().handle_call_tool(&request).is_err(), "{}", tool.name);
    }
}

#[test]
fn tool_parameters() {
    let tools = get_tools();
    let swap = &tools[2];
    assert_eq!(swap.description, "Simulate token swap on Uniswap V2");
    let slippage = &swap.parameters[3];
    assert_eq!(slippage.name, "slippage_tolerance");
    assert_eq!(slippage.kind, ParamKind::Number);
    assert!(!slippage.required);
    assert_eq!(slippage.default_hundredths, Some(50));
    let required: Vec<&str> = swap.parameters.iter().filter(|p| p.required).map(|p| p.name.as_str()).collect();
    assert_eq!(required, vec!["from_token", "to_token", "amount"]);
}

#[test]
fn text_content() {
    let content = create_text_content("hello".to_string());
    assert_eq!(content.len(), 1);
    assert_eq!(content[0].content_type, "text");
    assert_eq!(content[0].text, "hello");
}

#[test]
fn log_levels() {
    assert_eq!(log_level_from_name("DEBUG"), LogLevel::Debug);
    assert_eq!(log_level_from_name("info"), LogLevel::Info);
    assert_eq!(log_level_from_name("Warn"), LogLevel::Warn);
    assert_eq!(log_level_from_name("error"), LogLevel::Error);
    assert_eq!(log_level_from_name("verbose"), LogLevel::Info);
}
