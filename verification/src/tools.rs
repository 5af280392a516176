//! The tools the server offers to MCP clients, and the text content it answers
//! with.
use vstd::prelude::*;

verus! {

/// The JSON type a tool parameter takes.
#[derive(Clone, Copy, Debug, PartialEq, Eq, Structural)]
pub enum ParamKind {
    /// A string.
    Text,
    /// An array of strings.
    TextList,
    /// A number.
    Number,
}

/// One parameter of a tool.
#[derive(Clone, Debug)]
pub struct ToolParameter {
    pub name: String,
    pub kind: ParamKind,
    pub description: String,
    pub required: bool,
    /// The default of a number parameter, in hundredths.
    pub default_hundredths: Option<u64>,
}

/// A tool: its name, what it does, and its parameters.
#[derive(Clone, Debug)]
pub struct ToolDefinition {
    pub name: String,
    pub description: String,
    pub parameters: Vec<ToolParameter>,
}

/// A parameter, in terms of its texts.
pub struct ParamSpec {
    pub name: Seq<char>,
    pub kind: ParamKind,
    pub description: Seq<char>,
    pub required: bool,
    pub default_hundredths: Option<u64>,
}

/// A tool, in terms of its texts.
pub struct ToolSpec {
    pub name: Seq<char>,
    pub description: Seq<char>,
    pub parameters: Seq<ParamSpec>,
}

impl View for ToolParameter {
    type V = ParamSpec;

    open spec fn view(&self) -> ParamSpec {
        ParamSpec {
            name: self.name@,
            kind: self.kind,
            description: self.description@,
            required: self.required,
            default_hundredths: self.default_hundredths,
        }
    }
}

impl View for ToolDefinition {
    type V = ToolSpec;

    open spec fn view(&self) -> ToolSpec {
        ToolSpec {
            name: self.name@,
            description: self.description@,
            parameters: self.parameters@.map_values(|p: ToolParameter| p@),
        }
    }
}

pub open spec fn param_spec(
    name: Seq<char>,
    kind: ParamKind,
    description: Seq<char>,
    required: bool,
    default_hundredths: Option<u64>,
) -> ParamSpec {
    ParamSpec { name, kind, description, required, default_hundredths }
}

/// The tools the server offers, in order: balances, token price, swap
/// simulation.
pub open spec fn tool_catalogue() -> Seq<ToolSpec> {
    seq![
        ToolSpec {
            name: "get_balance"@,
            description: "Get Ethereum ETH and ERC20 token balances for an address"@,
            parameters: seq![
                param_spec("address"@, ParamKind::Text, "Ethereum address to check balance for"@, true, None),
                param_spec(
                    "token_addresses"@,
                    ParamKind::TextList,
                    "Optional list of ERC20 token addresses to check"@,
                    false,
                    None,
                ),
            ],
        },
        ToolSpec {
            name: "get_token_price"@,
            description: "Get current token price in USD and ETH"@,
            parameters: seq![
                param_spec(
                    "token_identifier"@,
                    ParamKind::Text,
                    "Token identifier (e.g., 'ethereum', 'uniswap', or contract address)"@,
                    true,
                    None,
                ),
            ],
        },
        ToolSpec {
            name: "swap_tokens"@,
            description: "Simulate token swap on Uniswap V2"@,
            parameters: seq![
                param_spec("from_token"@, ParamKind::Text, "Token address to swap from"@, true, None),
                param_spec("to_token"@, ParamKind::Text, "Token address to swap to"@, true, None),
                param_spec("amount"@, ParamKind::Text, "Amount to swap"@, true, None),
                param_spec(
                    "slippage_tolerance"@,
                    ParamKind::Number,
                    "Slippage tolerance percentage (e.g., 0.5 for 0.5%)"@,
                    false,
                    Some(50),
                ),
            ],
        },
    ]
}

fn parameter(name: &str, kind: ParamKind, description: &str, required: bool, default_hundredths: Option<u64>) -> (p:
    ToolParameter)
    ensures
        p@ == param_spec(name@, kind, description@, required, default_hundredths),
{
    ToolParameter {
        name: name.to_owned(),
        kind,
        description: description.to_owned(),
        required,
        default_hundredths,
    }
}

fn tool(name: &str, description: &str, parameters: Vec<ToolParameter>) -> (t: ToolDefinition)
    ensures
        t@ == (ToolSpec {
            name: name@,
            description: description@,
            parameters: parameters@.map_values(|p: ToolParameter| p@),
        }),
{
    ToolDefinition { name: name.to_owned(), description: description.to_owned(), parameters }
}

/// The tools the server offers.
pub fn get_tools() -> (tools: Vec<ToolDefinition>)
    ensures
        tools@.map_values(|t: ToolDefinition| t@) == tool_catalogue(),
{
    let mut balance_params = Vec::new();
    balance_params.push(parameter("address", ParamKind::Text, "Ethereum address to check balance for", true, None));
    balance_params.push(
        parameter(
            "token_addresses",
            ParamKind::TextList,
            "Optional list of ERC20 token addresses to check",
            false,
            None,
        ),
    );
    let mut price_params = Vec::new();
    price_params.push(
        parameter(
            "token_identifier",
            ParamKind::Text,
            "Token identifier (e.g., 'ethereum', 'uniswap', or contract address)",
            true,
            None,
        ),
    );
    let mut swap_params = Vec::new();
    swap_params.push(parameter("from_token", ParamKind::Text, "Token address to swap from", true, None));
    swap_params.push(parameter("to_token", ParamKind::Text, "Token address to swap to", true, None));
    swap_params.push(parameter("amount", ParamKind::Text, "Amount to swap", true, None));
    swap_params.push(
        parameter(
            "slippage_tolerance",
            ParamKind::Number,
            "Slippage tolerance percentage (e.g., 0.5 for 0.5%)",
            false,
            Some(50),
        ),
    );
    proof {
        assert(balance_params@.map_values(|p: ToolParameter| p@) =~= tool_catalogue()[0].parameters);
        assert(price_params@.map_values(|p: ToolParameter| p@) =~= tool_catalogue()[1].parameters);
        assert(swap_params@.map_values(|p: ToolParameter| p@) =~= tool_catalogue()[2].parameters);
    }
    let mut tools = Vec::new();
    tools.push(tool("get_balance", "Get Ethereum ETH and ERC20 token balances for an address", balance_params));
    tools.push(tool("get_token_price", "Get current token price in USD and ETH", price_params));
    tools.push(tool("swap_tokens", "Simulate token swap on Uniswap V2", swap_params));
    proof {
        assert(tools@.map_values(|t: ToolDefinition| t@) =~= tool_catalogue());
    }
    tools
}

/// Text content of a tool answer.
#[derive(Clone, Debug)]
pub struct TextContent {
    /// Always `text`.
    pub content_type: String,
    pub text: String,
}

/// A tool answer made of one piece of text.
pub fn create_text_content(text: String) -> (content: Vec<TextContent>)
    ensures
        content@.len() == 1,
        content@[0].content_type@ == "text"@,
        content@[0].text@ == text@,
{
    let mut content = Vec::new();
    content.push(TextContent { content_type: "text".to_owned(), text });
    content
}

} // verus!
