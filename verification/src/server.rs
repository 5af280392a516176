//! The MCP server: which tool a call names, and which arguments it takes from
//! the call.
use vstd::prelude::*;
use crate::error::{ErrorKind, McpError};
use crate::ethereum::EthereumService;
use crate::text::concat;

verus! {

/// A JSON argument of a tool call, as far as the server reads it.
#[derive(Clone, Debug)]
pub enum ArgValue {
    /// A string.
    Text(String),
    /// An array; each element that is a string, and `None` for the others.
    List(Vec<Option<String>>),
    /// A number, times one hundred (truncated towards zero, saturating at the
    /// bounds of `u64`, as `as u64` converts).
    Number { hundredths: u64 },
    /// Any other JSON value.
    Other,
}

/// A named argument of a tool call.
#[derive(Clone, Debug)]
pub struct Argument {
    pub name: String,
    pub value: ArgValue,
}

/// A tool call from a client: the tool's name and its arguments, if any.
#[derive(Clone, Debug)]
pub struct CallToolRequest {
    pub name: String,
    pub arguments: Option<Vec<Argument>>,
}

/// A tool call the server will run.
#[derive(Debug)]
pub enum ToolCall {
    /// Ether balance of `address`, and its balances of `token_addresses`.
    GetBalance { address: String, token_addresses: Option<Vec<String>> },
    /// Price of the token with this CoinGecko id.
    GetTokenPrice { token_identifier: String },
    /// Swap simulation, slippage in hundredths of a percent.
    SwapTokens { from_token: String, to_token: String, amount: String, slippage_bps: u64 },
}

/// The MCP server around an Ethereum service.
pub struct EthereumMCPServer {
    pub ethereum_service: EthereumService,
}

/// The arguments of a call (none when it has none).
pub open spec fn call_arguments(request: CallToolRequest) -> Seq<Argument> {
    match request.arguments {
        Some(args) => args@,
        None => Seq::empty(),
    }
}

/// Position of the first argument called `name`.
pub open spec fn argument_index(args: Seq<Argument>, name: Seq<char>) -> Option<nat>
    decreases args.len(),
{
    if args.len() == 0 {
        None
    } else if args[0].name@ == name {
        Some(0)
    } else {
        match argument_index(args.drop_first(), name) {
            Some(i) => Some(i + 1),
            None => None,
        }
    }
}

/// The argument called `name`, when it is a string.
pub open spec fn text_argument(args: Seq<Argument>, name: Seq<char>) -> Option<Seq<char>> {
    match argument_index(args, name) {
        Some(i) => match args[i as int].value {
            ArgValue::Text(s) => Some(s@),
            _ => None,
        },
        None => None,
    }
}

/// The strings among `items`, in order.
pub open spec fn strings_of(items: Seq<Option<String>>) -> Seq<Seq<char>>
    decreases items.len(),
{
    if items.len() == 0 {
        Seq::empty()
    } else {
        let rest = strings_of(items.drop_last());
        match items.last() {
            Some(s) => rest.push(s@),
            None => rest,
        }
    }
}

/// The strings of the argument called `name`, when it is an array.
pub open spec fn list_argument(args: Seq<Argument>, name: Seq<char>) -> Option<Seq<Seq<char>>> {
    match argument_index(args, name) {
        Some(i) => match args[i as int].value {
            ArgValue::List(items) => Some(strings_of(items@)),
            _ => None,
        },
        None => None,
    }
}

/// The slippage tolerance of a swap call, in hundredths of a percent: the
/// number given, else 0.5%.
pub open spec fn slippage_argument(args: Seq<Argument>) -> u64 {
    match argument_index(args, "slippage_tolerance"@) {
        Some(i) => match args[i as int].value {
            ArgValue::Number { hundredths } => hundredths,
            _ => 50,
        },
        None => 50,
    }
}

pub open spec fn list_view(list: Option<Vec<String>>) -> Option<Seq<Seq<char>>> {
    match list {
        Some(v) => Some(v@.map_values(|s: String| s@)),
        None => None,
    }
}

/// `r` is the configuration error "Missing required parameter: `name`".
pub open spec fn missing_parameter<T>(r: Result<T, McpError>, name: Seq<char>) -> bool {
    r matches Err(e) && e@ == (ErrorKind::Config, "Missing required parameter: "@ + name)
}

/// Which call a request makes: `get_balance` needs a string `address` (an
/// array `token_addresses` is optional); `get_token_price` a string
/// `token_identifier`; `swap_tokens` strings `from_token`, `to_token` and
/// `amount`, checked in this order (a number `slippage_tolerance` is
/// optional). Any other name is an unknown tool.
pub open spec fn tool_call_of(request: CallToolRequest, r: Result<ToolCall, McpError>) -> bool {
    let args = call_arguments(request);
    if request.name@ == "get_balance"@ {
        match text_argument(args, "address"@) {
            None => missing_parameter(r, "address"@),
            Some(address) => r matches Ok(ToolCall::GetBalance { address: a, token_addresses: t })
                && a@ == address && list_view(t) == list_argument(args, "token_addresses"@),
        }
    } else if request.name@ == "get_token_price"@ {
        match text_argument(args, "token_identifier"@) {
            None => missing_parameter(r, "token_identifier"@),
            Some(id) => r matches Ok(ToolCall::GetTokenPrice { token_identifier: t }) && t@ == id,
        }
    } else if request.name@ == "swap_tokens"@ {
        match (
            text_argument(args, "from_token"@),
            text_argument(args, "to_token"@),
            text_argument(args, "amount"@),
        ) {
            (None, _, _) => missing_parameter(r, "from_token"@),
            (Some(_), None, _) => missing_parameter(r, "to_token"@),
            (Some(_), Some(_), None) => missing_parameter(r, "amount"@),
            (Some(from), Some(to), Some(amount)) => r matches Ok(
                ToolCall::SwapTokens { from_token: f, to_token: t, amount: a, slippage_bps: s },
            ) && f@ == from && t@ == to && a@ == amount && s == slippage_argument(args),
        }
    } else {
        r matches Err(e) && e@ == (ErrorKind::Config, "Unknown tool: "@ + request.name@)
    }
}

proof fn lemma_argument_index(args: Seq<Argument>, name: Seq<char>, i: int)
    requires
        0 <= i <= args.len(),
        forall|j: int| 0 <= j < i ==> args[j].name@ != name,
    ensures
        i < args.len() && args[i].name@ == name ==> argument_index(args, name) == Some(i as nat),
        i == args.len() ==> argument_index(args, name) is None,
    decreases i,
{
    if i > 0 {
        lemma_argument_index(args.drop_first(), name, i - 1);
    }
}

/// Position of the first argument called `name`.
fn find_argument(args: &Vec<Argument>, name: &str) -> (r: Option<usize>)
    ensures
        r matches Some(i) ==> i < args@.len(),
        match r {
            Some(i) => argument_index(args@, name@) == Some(i as nat),
            None => argument_index(args@, name@) is None,
        },
{
    let key = name.to_owned();
    let mut i: usize = 0;
    while i < args.len()
        invariant
            i <= args.len(),
            key@ == name@,
            forall|j: int| 0 <= j < i ==> args@[j].name@ != name@,
        decreases args.len() - i,
    {
        if args[i].name.eq(&key) {
            proof {
                lemma_argument_index(args@, name@, i as int);
            }
            return Some(i);
        }
        i = i + 1;
    }
    proof {
        lemma_argument_index(args@, name@, i as int);
    }
    None
}

fn get_text_argument(args: &Vec<Argument>, name: &str) -> (r: Option<String>)
    ensures
        opt_view(r) == text_argument(args@, name@),
{
    match find_argument(args, name) {
        Some(i) => match &args[i].value {
            ArgValue::Text(s) => Some(s.clone()),
            _ => None,
        },
        None => None,
    }
}

pub open spec fn opt_view(o: Option<String>) -> Option<Seq<char>> {
    match o {
        Some(s) => Some(s@),
        None => None,
    }
}

fn collect_strings(items: &Vec<Option<String>>) -> (r: Vec<String>)
    ensures
        r@.map_values(|s: String| s@) == strings_of(items@),
{
    let mut r: Vec<String> = Vec::new();
    let mut i: usize = 0;
    while i < items.len()
        invariant
            i <= items.len(),
            r@.map_values(|s: String| s@) == strings_of(items@.take(i as int)),
        decreases items.len() - i,
    {
        proof {
            assert(items@.take(i + 1).drop_last() =~= items@.take(i as int));
        }
        match &items[i] {
            Some(s) => {
                let ghost before = r@;
                r.push(s.clone());
                proof {
                    assert(r@.map_values(|s: String| s@) =~= before.map_values(|s: String| s@).push(s@));
                }
            },
            None => {},
        }
        i = i + 1;
    }
    proof {
        assert(items@.take(i as int) =~= items@);
    }
    r
}

fn get_list_argument(args: &Vec<Argument>, name: &str) -> (r: Option<Vec<String>>)
    ensures
        list_view(r) == list_argument(args@, name@),
{
    match find_argument(args, name) {
        Some(i) => match &args[i].value {
            ArgValue::List(items) => Some(collect_strings(items)),
            _ => None,
        },
        None => None,
    }
}

fn get_slippage_argument(args: &Vec<Argument>) -> (r: u64)
    ensures
        r == slippage_argument(args@),
{
    proof {
        reveal_strlit("slippage_tolerance");
    }
    match find_argument(args, "slippage_tolerance") {
        Some(i) => match &args[i].value {
            ArgValue::Number { hundredths } => *hundredths,
            _ => 50,
        },
        None => 50,
    }
}

fn missing(name: &str) -> (e: McpError)
    ensures
        e@ == (ErrorKind::Config, "Missing required parameter: "@ + name@),
{
    proof {
        reveal_strlit("Missing required parameter: ");
    }
    McpError::Config(concat("Missing required parameter: ", name))
}

impl EthereumMCPServer {
    pub fn new(ethereum_service: EthereumService) -> (s: Self)
        ensures
            s.ethereum_service == ethereum_service,
    {
        EthereumMCPServer { ethereum_service }
    }

    /// Reads a tool call: which tool, with which arguments.
    pub fn handle_call_tool(&self, request: &CallToolRequest) -> (r: Result<ToolCall, McpError>)
        ensures
            tool_call_of(*request, r),
    {
        proof {
            reveal_strlit("get_balance");
            reveal_strlit("get_token_price");
            reveal_strlit("swap_tokens");
            reveal_strlit("address");
            reveal_strlit("token_addresses");
            reveal_strlit("token_identifier");
            reveal_strlit("from_token");
            reveal_strlit("to_token");
            reveal_strlit("amount");
            reveal_strlit("Unknown tool: ");
        }
        let empty: Vec<Argument> = Vec::new();
        let args = match &request.arguments {
            Some(a) => a,
            None => &empty,
        };
        if request.name.eq(&"get_balance".to_owned()) {
            let address = match get_text_argument(args, "address") {
                Some(a) => a,
                None => {
                    return Err(missing("address"));
                },
            };
            let token_addresses = get_list_argument(args, "token_addresses");
            Ok(ToolCall::GetBalance { address, token_addresses })
        } else if request.name.eq(&"get_token_price".to_owned()) {
            match get_text_argument(args, "token_identifier") {
                Some(t) => Ok(ToolCall::GetTokenPrice { token_identifier: t }),
                None => Err(missing("token_identifier")),
            }
        } else if request.name.eq(&"swap_tokens".to_owned()) {
            let from_token = match get_text_argument(args, "from_token") {
                Some(a) => a,
                None => {
                    return Err(missing("from_token"));
                },
            };
            let to_token = match get_text_argument(args, "to_token") {
                Some(a) => a,
                None => {
                    return Err(missing("to_token"));
                },
            };
            let amount = match get_text_argument(args, "amount") {
                Some(a) => a,
                None => {
                    return Err(missing("amount"));
                },
            };
            let slippage_bps = get_slippage_argument(args);
            Ok(ToolCall::SwapTokens { from_token, to_token, amount, slippage_bps })
        } else {
            Err(McpError::Config(concat("Unknown tool: ", request.name.as_str())))
        }
    }
}

} // verus!
