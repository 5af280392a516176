# mcp-ethereum-server

An MCP server that lets an AI agent read Ethereum balances (ether and ERC-20
tokens), look up token prices on CoinGecko, and simulate swaps on a Uniswap V2
router (simulation only: nothing is ever sent to the chain).

The logic is a Verus-verified library under `src/`:

- `uint256`, `text`, `address`: 256-bit amounts, decimal and hexadecimal text,
  addresses, with the calls into `ethers-core` they rest on.
- `amount`: writing amounts with decimals and reading amounts typed by users.
- `ethereum`: each service operation as a small state machine that says which
  fetch it needs next and turns the answers into the result.
- `server`, `tools`: which tool a call names and with which arguments; the tool
  catalogue.
- `error`, `logging`: the errors and how clients receive them; log levels.
- `laws`: properties that relate these functions to each other.

`app/` is the program around it: command-line settings, logging, the JSON-RPC
and HTTP fetches (through `ethers-providers` and `reqwest`), and the MCP
transport over stdio (`rmcp`).
