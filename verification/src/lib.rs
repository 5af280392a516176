//! Verified core of an MCP server that answers Ethereum balance, price and
//! swap-simulation queries.
pub mod address;
pub mod amount;
pub mod error;
pub mod ethereum;
pub mod laws;
pub mod logging;
pub mod server;
pub mod service_laws;
pub mod text;
pub mod tools;
pub mod uint256;

pub use error::McpError;
pub use ethereum::{
    BalanceResult, EthereumService, PriceResult, SwapSimulationResult, TokenBalance,
};
pub use server::EthereumMCPServer;
