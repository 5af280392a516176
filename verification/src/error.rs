//! The errors the server reports, and how they reach an MCP client.
use vstd::prelude::*;

verus! {

/// Which kind of failure an error is.
#[derive(Clone, Copy, Debug, PartialEq, Eq, Structural)]
pub enum ErrorKind {
    Ethereum,
    Http,
    Serialization,
    InvalidAddress,
    InvalidAmount,
    TokenNotFound,
    SwapSimulation,
    Config,
    Unknown,
}

/// A failure, with the text that explains it. For `Ethereum`, `Http` and
/// `Serialization` the text is that of the underlying provider, HTTP or JSON
/// error.
#[derive(Clone, Debug)]
pub enum McpError {
    Ethereum(String),
    Http(String),
    Serialization(String),
    InvalidAddress(String),
    InvalidAmount(String),
    TokenNotFound(String),
    SwapSimulation(String),
    Config(String),
    Unknown(String),
}

impl McpError {
    pub open spec fn kind(self) -> ErrorKind {
        match self {
            McpError::Ethereum(_) => ErrorKind::Ethereum,
            McpError::Http(_) => ErrorKind::Http,
            McpError::Serialization(_) => ErrorKind::Serialization,
            McpError::InvalidAddress(_) => ErrorKind::InvalidAddress,
            McpError::InvalidAmount(_) => ErrorKind::InvalidAmount,
            McpError::TokenNotFound(_) => ErrorKind::TokenNotFound,
            McpError::SwapSimulation(_) => ErrorKind::SwapSimulation,
            McpError::Config(_) => ErrorKind::Config,
            McpError::Unknown(_) => ErrorKind::Unknown,
        }
    }

    pub open spec fn detail(self) -> Seq<char> {
        match self {
            McpError::Ethereum(s) => s@,
            McpError::Http(s) => s@,
            McpError::Serialization(s) => s@,
            McpError::InvalidAddress(s) => s@,
            McpError::InvalidAmount(s) => s@,
            McpError::TokenNotFound(s) => s@,
            McpError::SwapSimulation(s) => s@,
            McpError::Config(s) => s@,
            McpError::Unknown(s) => s@,
        }
    }
}

impl View for McpError {
    type V = (ErrorKind, Seq<char>);

    open spec fn view(&self) -> (ErrorKind, Seq<char>) {
        (self.kind(), self.detail())
    }
}

/// The heading each kind of error is reported under.
pub open spec fn error_heading(kind: ErrorKind) -> Seq<char> {
    match kind {
        ErrorKind::Ethereum => "Ethereum error: "@,
        ErrorKind::Http => "HTTP error: "@,
        ErrorKind::Serialization => "Serialization error: "@,
        ErrorKind::InvalidAddress => "Invalid address: "@,
        ErrorKind::InvalidAmount => "Invalid amount: "@,
        ErrorKind::TokenNotFound => "Token not found: "@,
        ErrorKind::SwapSimulation => "Swap simulation failed: "@,
        ErrorKind::Config => "Configuration error: "@,
        ErrorKind::Unknown => "Unknown error: "@,
    }
}

/// The code every server error carries towards the client.
pub open spec fn server_error_code() -> int {
    -32000
}

/// An error as the MCP client receives it.
#[derive(Clone, Debug)]
pub struct RpcError {
    pub code: i64,
    pub message: String,
}

impl McpError {
    /// A copy of the error.
    pub fn duplicate(&self) -> (r: McpError)
        ensures
            r@ == self@,
    {
        match self {
            McpError::Ethereum(s) => McpError::Ethereum(s.clone()),
            McpError::Http(s) => McpError::Http(s.clone()),
            McpError::Serialization(s) => McpError::Serialization(s.clone()),
            McpError::InvalidAddress(s) => McpError::InvalidAddress(s.clone()),
            McpError::InvalidAmount(s) => McpError::InvalidAmount(s.clone()),
            McpError::TokenNotFound(s) => McpError::TokenNotFound(s.clone()),
            McpError::SwapSimulation(s) => McpError::SwapSimulation(s.clone()),
            McpError::Config(s) => McpError::Config(s.clone()),
            McpError::Unknown(s) => McpError::Unknown(s.clone()),
        }
    }

    /// The text of the error: its heading followed by its detail.
    pub fn message(&self) -> (m: String)
        ensures
            m@ == error_heading(self.kind()) + self.detail(),
    {
        proof {
            reveal_strlit("Ethereum error: ");
            reveal_strlit("HTTP error: ");
            reveal_strlit("Serialization error: ");
            reveal_strlit("Invalid address: ");
            reveal_strlit("Invalid amount: ");
            reveal_strlit("Token not found: ");
            reveal_strlit("Swap simulation failed: ");
            reveal_strlit("Configuration error: ");
            reveal_strlit("Unknown error: ");
        }
        let (heading, detail) = match self {
            McpError::Ethereum(s) => ("Ethereum error: ", s),
            McpError::Http(s) => ("HTTP error: ", s),
            McpError::Serialization(s) => ("Serialization error: ", s),
            McpError::InvalidAddress(s) => ("Invalid address: ", s),
            McpError::InvalidAmount(s) => ("Invalid amount: ", s),
            McpError::TokenNotFound(s) => ("Token not found: ", s),
            McpError::SwapSimulation(s) => ("Swap simulation failed: ", s),
            McpError::Config(s) => ("Configuration error: ", s),
            McpError::Unknown(s) => ("Unknown error: ", s),
        };
        let mut m = heading.to_owned();
        m.append(detail.as_str());
        m
    }
}

impl McpError {
    /// The error as the client receives it: the server error code and the
    /// error's text.
    pub fn to_rpc_error(&self) -> (r: RpcError)
        ensures
            r.code == server_error_code(),
            r.message@ == error_heading(self.kind()) + self.detail(),
    {
        RpcError { code: -32000, message: self.message() }
    }
}

} // verus!
