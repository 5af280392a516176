//! The Ethereum service: what it asks the chain (or the price API) and in which
//! order, and how it turns the answers into results. Each query is a small
//! state machine: `next_step` says what to fetch next, or gives the result;
//! `record` hands it the answer to the fetch it asked for.
use vstd::prelude::*;
use ethers_providers::{Http, Provider};
use crate::address::{address_from_str, address_parse_error_text, parse_address, EthAddress};
use crate::error::{ErrorKind, McpError};
use crate::text::concat;
use crate::uint256::{Uint256, nat_pow, u256_checked_mul, u256_div, u256_limit};
use crate::amount::{
    format_ether, format_ether_spec, format_token_amount_spec,
    parse_token_amount_spec, read_token_amount, AmountReading,
};

pub use crate::amount::{format_token_amount, parse_token_amount, token_amount_overflows};

verus! {

/// The view of an optional string.
pub open spec fn opt_str_view(o: Option<String>) -> Option<Seq<char>> {
    match o {
        Some(s) => Some(s@),
        None => None,
    }
}

#[verifier::external_type_specification]
#[verifier::external_body]
#[verifier::reject_recursive_types(P)]
pub struct ExProvider<P>(Provider<P>);

#[verifier::external_type_specification]
#[verifier::external_body]
pub struct ExHttp(Http);

/// The text of the error `Provider::<Http>::try_from` reports for `url`, or
/// `None` where it accepts `url`.
pub uninterp spec fn rpc_url_error(url: Seq<char>) -> Option<Seq<char>>;

/// `Provider::<Http>::try_from(url)`, a JSON-RPC provider over HTTP.
/// Claimed: it fails exactly where `rpc_url_error` names an error for `url`
/// (the URL does not parse), with that error's text; nothing is said of the
/// provider it makes. Building it sets up a `reqwest` client, which panics
/// only where no TLS backend can be started, which does not depend on `url`.
#[verifier::external_body]
fn http_provider(url: &str) -> (r: Result<Provider<Http>, String>)
    ensures
        match r {
            Ok(_) => rpc_url_error(url@) is None,
            Err(t) => rpc_url_error(url@) == Some(t@),
        },
{
    match Provider::<Http>::try_from(url) {
        Ok(p) => Ok(p),
        Err(e) => Err(e.to_string()),
    }
}

/// The service: the provider through which the chain is reached (and the URL
/// it was made for), which Uniswap V2 router to simulate swaps on, and the
/// optional CoinGecko API key.
#[derive(Debug)]
pub struct EthereumService {
    pub provider: Provider<Http>,
    pub rpc_url: String,
    pub uniswap_router: EthAddress,
    pub coingecko_api_key: Option<String>,
}

impl EthereumService {
    /// Builds the service; fails when no provider can be made for the RPC URL,
    /// then when the router address does not read as an address.
    pub fn new(rpc_url: String, uniswap_router: String, coingecko_api_key: Option<String>) -> (r:
        Result<EthereumService, McpError>)
        ensures
            match rpc_url_error(rpc_url@) {
                Some(t) => r matches Err(e) && e@ == (
                    ErrorKind::Config,
                    "Failed to create Ethereum provider: "@ + t,
                ),
                None => match address_from_str(uniswap_router@) {
                    None => r matches Err(e) && e@ == (
                        ErrorKind::InvalidAddress,
                        "Invalid Uniswap router address: "@ + address_parse_error_text(uniswap_router@),
                    ),
                    Some(bytes) => r matches Ok(s) && s.rpc_url@ == rpc_url@ && s.uniswap_router.bytes@
                        == bytes && opt_str_view(s.coingecko_api_key) == opt_str_view(coingecko_api_key),
                },
            },
    {
        proof {
            reveal_strlit("Failed to create Ethereum provider: ");
            reveal_strlit("Invalid Uniswap router address: ");
        }
        let provider = match http_provider(rpc_url.as_str()) {
            Ok(p) => p,
            Err(e) => {
                return Err(McpError::Config(concat("Failed to create Ethereum provider: ", e.as_str())));
            },
        };
        match parse_address(uniswap_router.as_str()) {
            Ok(router) => Ok(EthereumService { provider, rpc_url, uniswap_router: router, coingecko_api_key }),
            Err(e) => Err(McpError::InvalidAddress(concat("Invalid Uniswap router address: ", e.as_str()))),
        }
    }
}

/// A fetch the service needs done.
#[derive(Clone, Debug)]
pub enum ChainQuery {
    /// The ether balance of `account`, in wei.
    EthBalance { account: EthAddress },
    /// ERC-20 `balanceOf(account)` on `token`.
    TokenBalanceOf { token: EthAddress, account: EthAddress },
    /// ERC-20 `decimals()` on `token`.
    TokenDecimals { token: EthAddress },
    /// ERC-20 `symbol()` on `token`.
    TokenSymbol { token: EthAddress },
    /// ERC-20 `name()` on `token`.
    TokenName { token: EthAddress },
    /// Uniswap V2 `getAmountsOut(amount_in, [from, to])` on `router`.
    AmountsOut { router: EthAddress, amount_in: Uint256, from: EthAddress, to: EthAddress },
    /// The current gas price, in wei.
    GasPrice,
    /// An HTTP GET of `url`, answered with the JSON price entries it returns.
    PriceLookup { url: String },
}

/// One entry of a price response: the token's identifier and the time of its
/// last update, when given.
#[derive(Clone, Debug)]
pub struct PriceEntry {
    pub id: String,
    pub last_updated_at: Option<u64>,
}

/// The answer to a fetch; an `Err` carries the failure's text.
#[derive(Debug)]
pub enum ChainReply {
    /// Answers `EthBalance`, `TokenBalanceOf` and `GasPrice`.
    Amount(Result<Uint256, String>),
    /// Answers `TokenDecimals`.
    Decimals(Result<u8, String>),
    /// Answers `TokenSymbol` and `TokenName`.
    Text(Result<String, String>),
    /// Answers `AmountsOut`.
    Amounts(Result<Vec<Uint256>, String>),
    /// Answers `PriceLookup`.
    Prices(Result<Vec<PriceEntry>, String>),
}

/// What a query does next.
#[derive(Debug)]
pub enum Step<T> {
    /// Fetch this, then `record` the answer.
    Query(ChainQuery),
    /// The query is over, with this result.
    Done(Result<T, McpError>),
}

/// `step` ends the query with an error of this kind and text.
pub open spec fn fails_with<T>(step: Step<T>, kind: ErrorKind, detail: Seq<char>) -> bool {
    step matches Step::Done(Err(e)) && e@ == (kind, detail)
}

/// The answer that fills a slot waiting for an amount.
pub open spec fn amount_answer(reply: ChainReply) -> Option<Result<Uint256, String>> {
    match reply {
        ChainReply::Amount(r) => Some(r),
        _ => None,
    }
}

/// The answer that fills a slot waiting for decimals.
pub open spec fn decimals_answer(reply: ChainReply) -> Option<Result<u8, String>> {
    match reply {
        ChainReply::Decimals(r) => Some(r),
        _ => None,
    }
}

/// The answer that fills a slot waiting for a text.
pub open spec fn text_answer(reply: ChainReply) -> Option<Result<String, String>> {
    match reply {
        ChainReply::Text(r) => Some(r),
        _ => None,
    }
}

/// The text of a symbol or name answer, or `default` when the call failed.
pub open spec fn text_or(answer: Result<String, String>, default: Seq<char>) -> Seq<char> {
    match answer {
        Ok(s) => s@,
        Err(_) => default,
    }
}

fn text_or_default(answer: &Result<String, String>, default: &str) -> (r: String)
    ensures
        r@ == text_or(*answer, default@),
{
    match answer {
        Ok(s) => s.clone(),
        Err(_) => default.to_owned(),
    }
}

// ---------------------------------------------------------------------------
// Ether balance
// ---------------------------------------------------------------------------

/// Looking up the ether balance of an address.
pub struct EthBalanceQuery {
    pub address: String,
    pub balance: Option<Result<Uint256, String>>,
}

/// What an ether balance query does next: refuse an address that does not
/// read, else fetch the balance, then write it in ether (`format_ether`);
/// a failed fetch is an `Ethereum` error.
pub open spec fn eth_balance_step(q: EthBalanceQuery, step: Step<String>) -> bool {
    match address_from_str(q.address@) {
        None => fails_with(
            step,
            ErrorKind::InvalidAddress,
            "Invalid Ethereum address: "@ + address_parse_error_text(q.address@),
        ),
        Some(account) => match q.balance {
            None => step matches Step::Query(ChainQuery::EthBalance { account: a }) && a.bytes@
                == account,
            Some(Err(e)) => fails_with(step, ErrorKind::Ethereum, e@),
            Some(Ok(wei)) => step matches Step::Done(Ok(s)) && s@ == format_ether_spec(wei@),
        },
    }
}

impl EthBalanceQuery {
    pub fn next_step(&self) -> (step: Step<String>)
        ensures
            eth_balance_step(*self, step),
    {
        proof {
            reveal_strlit("Invalid Ethereum address: ");
        }
        let account = match parse_address(self.address.as_str()) {
            Ok(a) => a,
            Err(e) => {
                return Step::Done(Err(McpError::InvalidAddress(concat("Invalid Ethereum address: ", e.as_str()))));
            },
        };
        match &self.balance {
            None => Step::Query(ChainQuery::EthBalance { account }),
            Some(Err(e)) => Step::Done(Err(McpError::Ethereum(e.clone()))),
            Some(Ok(wei)) => Step::Done(Ok(format_ether(wei))),
        }
    }

    /// Takes the answer to the pending balance fetch; any other answer is
    /// ignored.
    pub fn record(&mut self, reply: ChainReply)
        ensures
            final(self).address == old(self).address,
            final(self).balance == if old(self).balance is None && amount_answer(reply) is Some {
                amount_answer(reply)
            } else {
                old(self).balance
            },
    {
        if self.balance.is_none() {
            if let ChainReply::Amount(r) = reply {
                self.balance = Some(r);
            }
        }
    }
}

// ---------------------------------------------------------------------------
// Token balance
// ---------------------------------------------------------------------------

/// Looking up the balance of an ERC-20 token held by a wallet.
pub struct TokenBalanceQuery {
    pub token_address: String,
    pub wallet_address: String,
    pub balance: Option<Result<Uint256, String>>,
    pub decimals: Option<Result<u8, String>>,
    pub symbol: Option<Result<String, String>>,
    pub name: Option<Result<String, String>>,
}

/// A token balance as reported.
#[derive(Clone, Debug)]
pub struct TokenBalance {
    pub token_address: String,
    pub name: String,
    pub symbol: String,
    pub balance: String,
    pub decimals: u8,
}

/// What a token balance query does next: refuse a token or wallet address
/// that does not read; fetch the balance, then the decimals (a failure of
/// either is an `Ethereum` error), then the symbol and the name (a failure
/// there gives `UNKNOWN` and `Unknown Token`); then report the balance written
/// with the token's decimals.
pub open spec fn token_balance_step(q: TokenBalanceQuery, step: Step<TokenBalance>) -> bool {
    match (address_from_str(q.token_address@), address_from_str(q.wallet_address@)) {
        (None, _) => fails_with(
            step,
            ErrorKind::InvalidAddress,
            "Invalid token address: "@ + address_parse_error_text(q.token_address@),
        ),
        (Some(_), None) => fails_with(
            step,
            ErrorKind::InvalidAddress,
            "Invalid wallet address: "@ + address_parse_error_text(q.wallet_address@),
        ),
        (Some(token), Some(wallet)) => match (q.balance, q.decimals, q.symbol, q.name) {
            (None, _, _, _) => step matches Step::Query(
                ChainQuery::TokenBalanceOf { token: t, account: a },
            ) && t.bytes@ == token && a.bytes@ == wallet,
            (Some(Err(e)), _, _, _) => fails_with(step, ErrorKind::Ethereum, e@),
            (Some(Ok(_)), None, _, _) => step matches Step::Query(ChainQuery::TokenDecimals { token: t })
                && t.bytes@ == token,
            (Some(Ok(_)), Some(Err(e)), _, _) => fails_with(step, ErrorKind::Ethereum, e@),
            (Some(Ok(_)), Some(Ok(_)), None, _) => step matches Step::Query(
                ChainQuery::TokenSymbol { token: t },
            ) && t.bytes@ == token,
            (Some(Ok(_)), Some(Ok(_)), Some(_), None) => step matches Step::Query(
                ChainQuery::TokenName { token: t },
            ) && t.bytes@ == token,
            (Some(Ok(raw)), Some(Ok(decimals)), Some(symbol), Some(name)) => step matches Step::Done(
                Ok(b),
            ) && b.token_address@ == q.token_address@ && b.name@ == text_or(name, "Unknown Token"@)
                && b.symbol@ == text_or(symbol, "UNKNOWN"@) && b.balance@ == format_token_amount_spec(
                raw@,
                decimals as nat,
            ) && b.decimals == decimals,
        },
    }
}

/// Whether the next step of a token balance query would overflow while
/// writing the balance (a token with more than 77 decimals).
pub open spec fn token_balance_overflows(q: TokenBalanceQuery) -> bool {
    &&& address_from_str(q.token_address@) is Some
    &&& address_from_str(q.wallet_address@) is Some
    &&& q.balance matches Some(Ok(_))
    &&& q.symbol is Some
    &&& q.name is Some
    &&& q.decimals matches Some(Ok(d)) && nat_pow(10, d as nat) >= u256_limit()
}

impl TokenBalanceQuery {
    pub fn overflows(&self) -> (b: bool)
        ensures
            b == token_balance_overflows(*self),
    {
        proof {
            if let Some(Ok(d)) = self.decimals {
                crate::uint256::lemma_pow10_fits(d as nat);
            }
        }
        if parse_address(self.token_address.as_str()).is_err() || parse_address(
            self.wallet_address.as_str(),
        ).is_err() {
            return false;
        }
        match (&self.balance, &self.decimals, &self.symbol, &self.name) {
            (Some(Ok(_)), Some(Ok(d)), Some(_), Some(_)) => *d > 77,
            _ => false,
        }
    }

    pub fn next_step(&self) -> (step: Step<TokenBalance>)
        requires
            !token_balance_overflows(*self),
        ensures
            token_balance_step(*self, step),
    {
        proof {
            reveal_strlit("Invalid token address: ");
            reveal_strlit("Invalid wallet address: ");
            reveal_strlit("Unknown Token");
            reveal_strlit("UNKNOWN");
        }
        let token = match parse_address(self.token_address.as_str()) {
            Ok(a) => a,
            Err(e) => {
                return Step::Done(Err(McpError::InvalidAddress(concat("Invalid token address: ", e.as_str()))));
            },
        };
        let wallet = match parse_address(self.wallet_address.as_str()) {
            Ok(a) => a,
            Err(e) => {
                return Step::Done(Err(McpError::InvalidAddress(concat("Invalid wallet address: ", e.as_str()))));
            },
        };
        let raw = match &self.balance {
            None => {
                return Step::Query(ChainQuery::TokenBalanceOf { token, account: wallet });
            },
            Some(Err(e)) => {
                return Step::Done(Err(McpError::Ethereum(e.clone())));
            },
            Some(Ok(raw)) => *raw,
        };
        let decimals = match &self.decimals {
            None => {
                return Step::Query(ChainQuery::TokenDecimals { token });
            },
            Some(Err(e)) => {
                return Step::Done(Err(McpError::Ethereum(e.clone())));
            },
            Some(Ok(d)) => *d,
        };
        let symbol = match &self.symbol {
            None => {
                return Step::Query(ChainQuery::TokenSymbol { token });
            },
            Some(s) => text_or_default(s, "UNKNOWN"),
        };
        let name = match &self.name {
            None => {
                return Step::Query(ChainQuery::TokenName { token });
            },
            Some(n) => text_or_default(n, "Unknown Token"),
        };
        proof {
            crate::uint256::lemma_pow10_fits(decimals as nat);
        }
        Step::Done(
            Ok(
                TokenBalance {
                    token_address: self.token_address.clone(),
                    name,
                    symbol,
                    balance: format_token_amount(raw, decimals),
                    decimals,
                },
            ),
        )
    }

    /// Takes the answer to the pending fetch (balance, then decimals, then
    /// symbol, then name); any other answer is ignored.
    pub fn record(&mut self, reply: ChainReply)
        ensures
            final(self).token_address == old(self).token_address,
            final(self).wallet_address == old(self).wallet_address,
            final(self).balance == if old(self).balance is None && amount_answer(reply) is Some {
                amount_answer(reply)
            } else {
                old(self).balance
            },
            final(self).decimals == if old(self).balance is Some && old(self).decimals is None
                && decimals_answer(reply) is Some {
                decimals_answer(reply)
            } else {
                old(self).decimals
            },
            final(self).symbol == if old(self).balance is Some && old(self).decimals is Some
                && old(self).symbol is None && text_answer(reply) is Some {
                text_answer(reply)
            } else {
                old(self).symbol
            },
            final(self).name == if old(self).balance is Some && old(self).decimals is Some
                && old(self).symbol is Some && old(self).name is None && text_answer(reply) is Some {
                text_answer(reply)
            } else {
                old(self).name
            },
    {
        if self.balance.is_none() {
            if let ChainReply::Amount(r) = reply {
                self.balance = Some(r);
            }
        } else if self.decimals.is_none() {
            if let ChainReply::Decimals(r) = reply {
                self.decimals = Some(r);
            }
        } else if self.symbol.is_none() {
            if let ChainReply::Text(r) = reply {
                self.symbol = Some(r);
            }
        } else if self.name.is_none() {
            if let ChainReply::Text(r) = reply {
                self.name = Some(r);
            }
        }
    }
}

impl TokenBalance {
    /// A copy of the balance.
    pub fn duplicate(&self) -> (r: TokenBalance)
        ensures
            r == *self,
    {
        TokenBalance {
            token_address: self.token_address.clone(),
            name: self.name.clone(),
            symbol: self.symbol.clone(),
            balance: self.balance.clone(),
            decimals: self.decimals,
        }
    }
}

// ---------------------------------------------------------------------------
// All balances of a wallet
// ---------------------------------------------------------------------------

/// Looking up the ether balance of a wallet and its balances of a list of
/// tokens. Each part runs as its own query (`EthBalanceQuery`,
/// `TokenBalanceQuery`); this one decides which part runs next and gathers
/// their results.
pub struct AllBalancesQuery {
    pub wallet_address: String,
    pub token_addresses: Option<Vec<String>>,
    pub eth_balance: Option<Result<String, McpError>>,
    pub token_results: Vec<Result<TokenBalance, McpError>>,
}

/// The balances of a wallet as reported.
#[derive(Clone, Debug)]
pub struct BalanceResult {
    pub address: String,
    pub eth_balance: String,
    pub token_balances: Vec<TokenBalance>,
}

/// What an all-balances query does next.
#[derive(Debug)]
pub enum BalancesStep {
    /// Run the ether balance query for this address, then
    /// `record_eth_balance` its result.
    EthBalance(String),
    /// Run the token balance query for this token and wallet, then
    /// `record_token_balance` its result.
    TokenBalance { token_address: String, wallet_address: String },
    /// The query is over, with this result.
    Done(Result<BalanceResult, McpError>),
}

/// The tokens a query was asked about (none when no list was given).
pub open spec fn tokens_asked(tokens: Option<Vec<String>>) -> Seq<String> {
    match tokens {
        Some(v) => v@,
        None => Seq::empty(),
    }
}

/// The balances among `results` that were found, in order.
pub open spec fn found_balances(results: Seq<Result<TokenBalance, McpError>>) -> Seq<TokenBalance>
    decreases results.len(),
{
    if results.len() == 0 {
        Seq::empty()
    } else {
        let rest = found_balances(results.drop_last());
        match results.last() {
            Ok(b) => rest.push(b),
            Err(_) => rest,
        }
    }
}

/// What an all-balances query does next: the ether balance first (its
/// failure ends the query with that error), then each token in the order
/// given; a token whose lookup fails is left out of the report.
pub open spec fn all_balances_step(q: AllBalancesQuery, step: BalancesStep) -> bool {
    match q.eth_balance {
        None => step matches BalancesStep::EthBalance(w) && w@ == q.wallet_address@,
        Some(Err(e)) => step matches BalancesStep::Done(Err(e2)) && e2@ == e@,
        Some(Ok(eth)) => {
            let tokens = tokens_asked(q.token_addresses);
            let k = q.token_results.len();
            if k < tokens.len() {
                step matches BalancesStep::TokenBalance { token_address: t, wallet_address: w }
                    && t@ == tokens[k as int]@ && w@ == q.wallet_address@
            } else {
                step matches BalancesStep::Done(Ok(r)) && r.address@ == q.wallet_address@
                    && r.eth_balance@ == eth@ && r.token_balances@ == found_balances(q.token_results@)
            }
        },
    }
}

fn collect_found_balances(results: &Vec<Result<TokenBalance, McpError>>) -> (r: Vec<TokenBalance>)
    ensures
        r@ == found_balances(results@),
{
    let mut r: Vec<TokenBalance> = Vec::new();
    let mut i: usize = 0;
    while i < results.len()
        invariant
            i <= results.len(),
            r@ == found_balances(results@.take(i as int)),
        decreases results.len() - i,
    {
        proof {
            assert(results@.take(i + 1).drop_last() =~= results@.take(i as int));
        }
        match &results[i] {
            Ok(b) => {
                r.push(b.duplicate());
            },
            Err(_) => {},
        }
        i = i + 1;
    }
    proof {
        assert(results@.take(i as int) =~= results@);
    }
    r
}

impl AllBalancesQuery {
    pub fn next_step(&self) -> (step: BalancesStep)
        ensures
            all_balances_step(*self, step),
    {
        let eth = match &self.eth_balance {
            None => {
                return BalancesStep::EthBalance(self.wallet_address.clone());
            },
            Some(Err(e)) => {
                return BalancesStep::Done(Err(e.duplicate()));
            },
            Some(Ok(eth)) => eth,
        };
        let k = self.token_results.len();
        if let Some(tokens) = &self.token_addresses {
            if k < tokens.len() {
                return BalancesStep::TokenBalance {
                    token_address: tokens[k].clone(),
                    wallet_address: self.wallet_address.clone(),
                };
            }
        }
        BalancesStep::Done(
            Ok(
                BalanceResult {
                    address: self.wallet_address.clone(),
                    eth_balance: eth.clone(),
                    token_balances: collect_found_balances(&self.token_results),
                },
            ),
        )
    }

    /// Takes the result of the ether balance query, if it is awaited.
    pub fn record_eth_balance(&mut self, result: Result<String, McpError>)
        ensures
            final(self).wallet_address == old(self).wallet_address,
            final(self).token_addresses == old(self).token_addresses,
            final(self).token_results == old(self).token_results,
            final(self).eth_balance == if old(self).eth_balance is None {
                Some(result)
            } else {
                old(self).eth_balance
            },
    {
        if self.eth_balance.is_none() {
            self.eth_balance = Some(result);
        }
    }

    /// Takes the result of the pending token balance query, if one is
    /// awaited.
    pub fn record_token_balance(&mut self, result: Result<TokenBalance, McpError>)
        ensures
            final(self).wallet_address == old(self).wallet_address,
            final(self).token_addresses == old(self).token_addresses,
            final(self).eth_balance == old(self).eth_balance,
            final(self).token_results@ == if old(self).eth_balance matches Some(Ok(_))
                && old(self).token_results.len() < tokens_asked(old(self).token_addresses).len() {
                old(self).token_results@.push(result)
            } else {
                old(self).token_results@
            },
    {
        let awaited = match (&self.eth_balance, &self.token_addresses) {
            (Some(Ok(_)), Some(tokens)) => self.token_results.len() < tokens.len(),
            _ => false,
        };
        if awaited {
            self.token_results.push(result);
        }
    }
}

// ---------------------------------------------------------------------------
// Token price
// ---------------------------------------------------------------------------

/// Looking up the price of a token on CoinGecko.
pub struct PriceQuery {
    pub token_identifier: String,
    pub api_key: Option<String>,
    pub response: Option<Result<Vec<PriceEntry>, String>>,
}

/// A price lookup as reported: the token, the time of its last update, and
/// which entry of the response holds its prices.
#[derive(Clone, Debug)]
pub struct PriceResult {
    pub token: String,
    pub last_updated: String,
    pub entry: usize,
}

/// The CoinGecko simple-price request for `token_identifier`, in USD and ETH,
/// with market cap and update time, and the API key when there is one.
pub open spec fn coingecko_price_url(token_identifier: Seq<char>, api_key: Option<Seq<char>>) -> Seq<char> {
    let base = "https://api.coingecko.com/api/v3/simple/price?ids="@ + token_identifier
        + "&vs_currencies=usd,eth&include_market_cap=true&include_last_updated_at=true"@;
    match api_key {
        Some(key) => base + "&x_cg_demo_api_key="@ + key,
        None => base,
    }
}

/// Position of the first entry for `id`.
pub open spec fn entry_index(entries: Seq<PriceEntry>, id: Seq<char>) -> Option<nat>
    decreases entries.len(),
{
    if entries.len() == 0 {
        None
    } else if entries[0].id@ == id {
        Some(0)
    } else {
        match entry_index(entries.drop_first(), id) {
            Some(i) => Some(i + 1),
            None => None,
        }
    }
}

/// The RFC 3339 text of a UNIX timestamp (in seconds, UTC), as
/// `chrono::DateTime::from_timestamp(secs, 0)` and `to_rfc3339` give it;
/// `None` where chrono's date range ends.
pub uninterp spec fn utc_rfc3339(secs: i64) -> Option<Seq<char>>;

/// `chrono::DateTime::<Utc>::from_timestamp(secs, 0)`, the date written by
/// `to_rfc3339` (a `DateTime<Utc>` and its RFC 3339 text determine each
/// other). Claimed: the result is named by `utc_rfc3339`, `None` exactly where
/// `from_timestamp` gives `None`.
#[verifier::external_body]
fn timestamp_to_rfc3339(secs: i64) -> (r: Option<String>)
    ensures
        opt_str_view(r) == utc_rfc3339(secs),
{
    match chrono::DateTime::from_timestamp(secs, 0) {
        Some(date) => Some(date.to_rfc3339()),
        None => None,
    }
}

/// The update time as reported: the RFC 3339 date, or `unknown` when there
/// is none or it is out of range. The seconds are read as a signed number
/// (`as i64`).
pub open spec fn last_updated_text(last_updated_at: Option<u64>) -> Seq<char> {
    match last_updated_at {
        Some(t) => match utc_rfc3339(t as i64) {
            Some(s) => s,
            None => "unknown"@,
        },
        None => "unknown"@,
    }
}

fn last_updated_label(last_updated_at: Option<u64>) -> (r: String)
    ensures
        r@ == last_updated_text(last_updated_at),
{
    proof {
        reveal_strlit("unknown");
    }
    match last_updated_at {
        Some(t) => match timestamp_to_rfc3339(t as i64) {
            Some(s) => s,
            None => "unknown".to_owned(),
        },
        None => "unknown".to_owned(),
    }
}

/// What a price query does next: request the price, then pick the entry for
/// the token (an HTTP failure is an `Http` error, a missing entry a
/// `TokenNotFound` one).
pub open spec fn price_step(q: PriceQuery, step: Step<PriceResult>) -> bool {
    match q.response {
        None => step matches Step::Query(ChainQuery::PriceLookup { url }) && url@ == coingecko_price_url(
            q.token_identifier@,
            opt_str_view(q.api_key),
        ),
        Some(Err(e)) => fails_with(step, ErrorKind::Http, e@),
        Some(Ok(entries)) => match entry_index(entries@, q.token_identifier@) {
            None => fails_with(step, ErrorKind::TokenNotFound, q.token_identifier@),
            Some(i) => step matches Step::Done(Ok(r)) && r.token@ == q.token_identifier@
                && r.last_updated@ == last_updated_text(entries@[i as int].last_updated_at) && r.entry
                == i,
        },
    }
}

proof fn lemma_entry_index(entries: Seq<PriceEntry>, id: Seq<char>, i: int)
    requires
        0 <= i <= entries.len(),
        forall|j: int| 0 <= j < i ==> entries[j].id@ != id,
    ensures
        i < entries.len() && entries[i].id@ == id ==> entry_index(entries, id) == Some(i as nat),
        i == entries.len() ==> entry_index(entries, id) is None,
    decreases i,
{
    if i > 0 {
        lemma_entry_index(entries.drop_first(), id, i - 1);
    }
}

impl PriceQuery {
    pub fn next_step(&self) -> (step: Step<PriceResult>)
        ensures
            price_step(*self, step),
    {
        proof {
            reveal_strlit("https://api.coingecko.com/api/v3/simple/price?ids=");
            reveal_strlit("&vs_currencies=usd,eth&include_market_cap=true&include_last_updated_at=true");
            reveal_strlit("&x_cg_demo_api_key=");
        }
        match &self.response {
            None => {
                let mut url = concat(
                    "https://api.coingecko.com/api/v3/simple/price?ids=",
                    self.token_identifier.as_str(),
                );
                url.append("&vs_currencies=usd,eth&include_market_cap=true&include_last_updated_at=true");
                if let Some(key) = &self.api_key {
                    url.append("&x_cg_demo_api_key=");
                    url.append(key.as_str());
                }
                Step::Query(ChainQuery::PriceLookup { url })
            },
            Some(Err(e)) => Step::Done(Err(McpError::Http(e.clone()))),
            Some(Ok(entries)) => {
                let mut i: usize = 0;
                while i < entries.len()
                    invariant
                        i <= entries.len(),
                        self.response == Some(Ok::<Vec<PriceEntry>, String>(*entries)),
                        forall|j: int| 0 <= j < i ==> entries@[j].id@ != self.token_identifier@,
                    decreases entries.len() - i,
                {
                    if entries[i].id.eq(&self.token_identifier) {
                        proof {
                            assert(entries@[i as int].id@ == self.token_identifier@);
                            lemma_entry_index(entries@, self.token_identifier@, i as int);
                        }
                        let r = PriceResult {
                            token: self.token_identifier.clone(),
                            last_updated: last_updated_label(entries[i].last_updated_at),
                            entry: i,
                        };
                        return Step::Done(Ok(r));
                    }
                    i = i + 1;
                }
                proof {
                    lemma_entry_index(entries@, self.token_identifier@, i as int);
                }
                Step::Done(Err(McpError::TokenNotFound(self.token_identifier.clone())))
            },
        }
    }

    /// Takes the price response, if it is awaited; any other answer is
    /// ignored.
    pub fn record(&mut self, reply: ChainReply)
        ensures
            final(self).token_identifier == old(self).token_identifier,
            final(self).api_key == old(self).api_key,
            final(self).response == if old(self).response is None && reply is Prices {
                Some(reply->Prices_0)
            } else {
                old(self).response
            },
    {
        if self.response.is_none() {
            if let ChainReply::Prices(r) = reply {
                self.response = Some(r);
            }
        }
    }
}

// ---------------------------------------------------------------------------
// Swap simulation
// ---------------------------------------------------------------------------

/// Simulating a swap of `amount` of `from_token` into `to_token` on a
/// Uniswap V2 router, with a slippage tolerance in hundredths of a percent
/// (basis points).
pub struct SwapQuery {
    pub from_token: String,
    pub to_token: String,
    pub amount: String,
    pub slippage_bps: u64,
    pub router: EthAddress,
    pub from_decimals: Option<Result<u8, String>>,
    pub to_decimals: Option<Result<u8, String>>,
    pub from_symbol: Option<Result<String, String>>,
    pub to_symbol: Option<Result<String, String>>,
    pub amounts: Option<Result<Vec<Uint256>, String>>,
    pub gas_price: Option<Result<Uint256, String>>,
}

/// A swap simulation as reported (the price impact, a float, is added by the
/// caller).
#[derive(Clone, Debug)]
pub struct SwapSimulationResult {
    pub from_token: String,
    pub to_token: String,
    pub amount_in: String,
    pub expected_amount_out: String,
    pub min_amount_out: String,
    pub gas_estimate: u64,
    pub gas_cost_eth: String,
    pub gas_cost_usd: Option<String>,
    pub route: Vec<String>,
    pub success: bool,
}

/// The decimals amounts typed by the user are read with.
pub open spec fn swap_input_decimals() -> nat {
    18
}

/// The gas a swap is assumed to use.
pub open spec fn swap_gas_estimate() -> nat {
    200000
}

/// The least output accepted: the expected output less the slippage
/// tolerance, rounded down.
pub open spec fn min_amount_out_spec(expected: nat, slippage_bps: nat) -> nat {
    expected * (10000 - slippage_bps) as nat / 10000
}

/// How a token is named in a swap report: its symbol and, in parentheses,
/// the address it was given by.
pub open spec fn token_label(symbol: Seq<char>, address: Seq<char>) -> Seq<char> {
    symbol + " ("@ + address + ")"@
}

/// Whether the next step of a swap simulation overflows 256 bits (or the
/// slippage exceeds 100%): reading the amount; computing the least output
/// once the router answered; the gas cost, or writing amounts with more than
/// 77 decimals, once the gas price is known.
pub open spec fn swap_overflows(q: SwapQuery) -> bool {
    &&& address_from_str(q.from_token@) is Some
    &&& address_from_str(q.to_token@) is Some
    &&& match parse_token_amount_spec(q.amount@, swap_input_decimals()) {
        None => true,
        Some(Err(_)) => false,
        Some(Ok(_)) => {
            &&& q.from_decimals matches Some(Ok(fd))
            &&& q.to_decimals matches Some(Ok(td))
            &&& q.from_symbol is Some
            &&& q.to_symbol is Some
            &&& q.amounts matches Some(Ok(v))
            &&& v@.len() >= 2
            &&& {
                ||| q.slippage_bps > 10000
                ||| v@[1]@ * (10000 - q.slippage_bps) >= u256_limit()
                ||| q.gas_price matches Some(Ok(gp)) && (swap_gas_estimate() * gp@ >= u256_limit()
                    || nat_pow(10, fd as nat) >= u256_limit() || nat_pow(10, td as nat) >= u256_limit())
            }
        },
    }
}

/// The report once every answer is in.
pub open spec fn swap_report(
    q: SwapQuery,
    amount_in: nat,
    fd: u8,
    td: u8,
    fs: Result<String, String>,
    ts: Result<String, String>,
    expected: nat,
    gas_price: nat,
    r: SwapSimulationResult,
) -> bool {
    let from_symbol = text_or(fs, "UNKNOWN"@);
    let to_symbol = text_or(ts, "UNKNOWN"@);
    &&& r.from_token@ == token_label(from_symbol, q.from_token@)
    &&& r.to_token@ == token_label(to_symbol, q.to_token@)
    &&& r.amount_in@ == format_token_amount_spec(amount_in, fd as nat)
    &&& r.expected_amount_out@ == format_token_amount_spec(expected, td as nat)
    &&& r.min_amount_out@ == format_token_amount_spec(
        min_amount_out_spec(expected, q.slippage_bps as nat),
        td as nat,
    )
    &&& r.gas_estimate == swap_gas_estimate()
    &&& r.gas_cost_eth@ == format_ether_spec(swap_gas_estimate() * gas_price)
    &&& r.gas_cost_usd is None
    &&& r.route@.len() == 2
    &&& r.route@[0]@ == from_symbol
    &&& r.route@[1]@ == to_symbol
    &&& r.success
}

/// What a swap simulation does next: refuse token addresses that do not
/// read, and an amount that does not read (as `parse_token_amount` reads it,
/// with 18 decimals); fetch the decimals of both tokens (failures are
/// `Ethereum` errors), their symbols (failures give `UNKNOWN`), the router's
/// output for the path `[from, to]` (a failure, or fewer than two amounts, is a
/// `SwapSimulation` error), and the gas price (failure: `Ethereum`); then
/// report.
pub open spec fn swap_step(q: SwapQuery, step: Step<SwapSimulationResult>) -> bool {
    match (address_from_str(q.from_token@), address_from_str(q.to_token@)) {
        (None, _) => fails_with(
            step,
            ErrorKind::InvalidAddress,
            "Invalid from_token address: "@ + address_parse_error_text(q.from_token@),
        ),
        (Some(_), None) => fails_with(
            step,
            ErrorKind::InvalidAddress,
            "Invalid to_token address: "@ + address_parse_error_text(q.to_token@),
        ),
        (Some(from), Some(to)) => match parse_token_amount_spec(q.amount@, swap_input_decimals()) {
            None => true,
            Some(Err(m)) => fails_with(step, ErrorKind::InvalidAmount, m),
            Some(Ok(amount_in)) => match q.from_decimals {
                None => step matches Step::Query(ChainQuery::TokenDecimals { token: t }) && t.bytes@
                    == from,
                Some(Err(e)) => fails_with(step, ErrorKind::Ethereum, e@),
                Some(Ok(fd)) => match q.to_decimals {
                    None => step matches Step::Query(ChainQuery::TokenDecimals { token: t })
                        && t.bytes@ == to,
                    Some(Err(e)) => fails_with(step, ErrorKind::Ethereum, e@),
                    Some(Ok(td)) => match (q.from_symbol, q.to_symbol) {
                        (None, _) => step matches Step::Query(ChainQuery::TokenSymbol { token: t })
                            && t.bytes@ == from,
                        (Some(_), None) => step matches Step::Query(
                            ChainQuery::TokenSymbol { token: t },
                        ) && t.bytes@ == to,
                        (Some(fs), Some(ts)) => match q.amounts {
                            None => step matches Step::Query(
                                ChainQuery::AmountsOut { router: r, amount_in: a, from: x, to: y },
                            ) && r == q.router && a@ == amount_in && x.bytes@ == from && y.bytes@
                                == to,
                            Some(Err(e)) => fails_with(
                                step,
                                ErrorKind::SwapSimulation,
                                "Failed to simulate swap: "@ + e@,
                            ),
                            Some(Ok(v)) => if v@.len() < 2 {
                                fails_with(
                                    step,
                                    ErrorKind::SwapSimulation,
                                    "Invalid amounts returned from router"@,
                                )
                            } else {
                                match q.gas_price {
                                    None => step matches Step::Query(ChainQuery::GasPrice),
                                    Some(Err(e)) => fails_with(step, ErrorKind::Ethereum, e@),
                                    Some(Ok(gp)) => step matches Step::Done(Ok(r)) && swap_report(
                                        q,
                                        amount_in,
                                        fd,
                                        td,
                                        fs,
                                        ts,
                                        v@[1]@,
                                        gp@,
                                        r,
                                    ),
                                }
                            },
                        },
                    },
                },
            },
        },
    }
}

/// `amount * (10000 - slippage_bps) / 10000`.
pub fn min_amount_out(expected: &Uint256, slippage_bps: u64) -> (r: Uint256)
    requires
        slippage_bps <= 10000,
        expected@ * (10000 - slippage_bps) < u256_limit(),
    ensures
        r@ == min_amount_out_spec(expected@, slippage_bps as nat),
{
    let kept = Uint256::from_u64(10000 - slippage_bps);
    let scaled = u256_checked_mul(expected, &kept).unwrap();
    u256_div(&scaled, &Uint256::from_u64(10000))
}

fn labelled_token(symbol: &String, address: &String) -> (r: String)
    ensures
        r@ == token_label(symbol@, address@),
{
    proof {
        reveal_strlit(" (");
        reveal_strlit(")");
    }
    let mut r = concat(symbol.as_str(), " (");
    r.append(address.as_str());
    r.append(")");
    r
}

/// How a swap simulation takes an answer: the pending fetch (decimals of
/// each token, their symbols, the router's amounts, the gas price, in this
/// order) is filled by an answer of its kind; the inputs never change.
pub open spec fn swap_recorded(before: SwapQuery, reply: ChainReply, after: SwapQuery) -> bool {
    &&& after.from_token == before.from_token
    &&& after.to_token == before.to_token
    &&& after.amount == before.amount
    &&& after.slippage_bps == before.slippage_bps
    &&& after.router == before.router
    &&& after.from_decimals == if before.from_decimals is None && decimals_answer(reply) is Some {
            decimals_answer(reply)
        } else {
            before.from_decimals
        }
    &&& after.to_decimals == if before.from_decimals is Some && before.to_decimals is None
            && decimals_answer(reply) is Some {
            decimals_answer(reply)
        } else {
            before.to_decimals
        }
    &&& after.from_symbol == if before.from_decimals is Some && before.to_decimals is Some
            && before.from_symbol is None && text_answer(reply) is Some {
            text_answer(reply)
        } else {
            before.from_symbol
        }
    &&& after.to_symbol == if before.from_decimals is Some && before.to_decimals is Some
            && before.from_symbol is Some && before.to_symbol is None && text_answer(reply) is Some {
            text_answer(reply)
        } else {
            before.to_symbol
        }
    &&& after.amounts == if before.from_decimals is Some && before.to_decimals is Some
            && before.from_symbol is Some && before.to_symbol is Some && before.amounts is None
            && reply is Amounts {
            Some(reply->Amounts_0)
        } else {
            before.amounts
        }
    &&& after.gas_price == if before.from_decimals is Some && before.to_decimals is Some
            && before.from_symbol is Some && before.to_symbol is Some && before.amounts is Some
            && before.gas_price is None && amount_answer(reply) is Some {
            amount_answer(reply)
        } else {
            before.gas_price
        }
}

impl SwapQuery {
    pub fn overflows(&self) -> (b: bool)
        ensures
            b == swap_overflows(*self),
    {
        if parse_address(self.from_token.as_str()).is_err() || parse_address(self.to_token.as_str()).is_err() {
            return false;
        }
        match read_token_amount(self.amount.as_str(), 18) {
            AmountReading::Overflow => {
                return true;
            },
            AmountReading::Rejected(_) => {
                return false;
            },
            AmountReading::Value(_) => {},
        }
        let (fd, td) = match (&self.from_decimals, &self.to_decimals) {
            (Some(Ok(fd)), Some(Ok(td))) => (*fd, *td),
            _ => {
                return false;
            },
        };
        if self.from_symbol.is_none() || self.to_symbol.is_none() {
            return false;
        }
        let v = match &self.amounts {
            Some(Ok(v)) => v,
            _ => {
                return false;
            },
        };
        if v.len() < 2 {
            return false;
        }
        if self.slippage_bps > 10000 {
            return true;
        }
        if u256_checked_mul(&v[1], &Uint256::from_u64(10000 - self.slippage_bps)).is_none() {
            return true;
        }
        match &self.gas_price {
            Some(Ok(gp)) => {
                proof {
                    crate::uint256::lemma_pow10_fits(fd as nat);
                    crate::uint256::lemma_pow10_fits(td as nat);
                }
                u256_checked_mul(&Uint256::from_u64(200000), gp).is_none() || fd > 77 || td > 77
            },
            _ => false,
        }
    }

    pub fn next_step(&self) -> (step: Step<SwapSimulationResult>)
        requires
            !swap_overflows(*self),
        ensures
            swap_step(*self, step),
    {
        proof {
            reveal_strlit("Invalid from_token address: ");
            reveal_strlit("Invalid to_token address: ");
            reveal_strlit("Failed to simulate swap: ");
            reveal_strlit("Invalid amounts returned from router");
            reveal_strlit("UNKNOWN");
        }
        let from = match parse_address(self.from_token.as_str()) {
            Ok(a) => a,
            Err(e) => {
                return Step::Done(Err(McpError::InvalidAddress(concat("Invalid from_token address: ", e.as_str()))));
            },
        };
        let to = match parse_address(self.to_token.as_str()) {
            Ok(a) => a,
            Err(e) => {
                return Step::Done(Err(McpError::InvalidAddress(concat("Invalid to_token address: ", e.as_str()))));
            },
        };
        let amount_in = match read_token_amount(self.amount.as_str(), 18) {
            AmountReading::Value(v) => v,
            AmountReading::Rejected(m) => {
                return Step::Done(Err(McpError::InvalidAmount(m)));
            },
            AmountReading::Overflow => {
                return Step::Done(Err(McpError::InvalidAmount(String::new())));
            },
        };
        let fd = match &self.from_decimals {
            None => {
                return Step::Query(ChainQuery::TokenDecimals { token: from });
            },
            Some(Err(e)) => {
                return Step::Done(Err(McpError::Ethereum(e.clone())));
            },
            Some(Ok(d)) => *d,
        };
        let td = match &self.to_decimals {
            None => {
                return Step::Query(ChainQuery::TokenDecimals { token: to });
            },
            Some(Err(e)) => {
                return Step::Done(Err(McpError::Ethereum(e.clone())));
            },
            Some(Ok(d)) => *d,
        };
        let from_symbol = match &self.from_symbol {
            None => {
                return Step::Query(ChainQuery::TokenSymbol { token: from });
            },
            Some(s) => text_or_default(s, "UNKNOWN"),
        };
        let to_symbol = match &self.to_symbol {
            None => {
                return Step::Query(ChainQuery::TokenSymbol { token: to });
            },
            Some(s) => text_or_default(s, "UNKNOWN"),
        };
        let expected = match &self.amounts {
            None => {
                return Step::Query(
                    ChainQuery::AmountsOut { router: self.router, amount_in, from, to },
                );
            },
            Some(Err(e)) => {
                return Step::Done(
                    Err(McpError::SwapSimulation(concat("Failed to simulate swap: ", e.as_str()))),
                );
            },
            Some(Ok(v)) => {
                if v.len() < 2 {
                    return Step::Done(
                        Err(McpError::SwapSimulation("Invalid amounts returned from router".to_owned())),
                    );
                }
                v[1]
            },
        };
        let min_out = min_amount_out(&expected, self.slippage_bps);
        let gas_price = match &self.gas_price {
            None => {
                return Step::Query(ChainQuery::GasPrice);
            },
            Some(Err(e)) => {
                return Step::Done(Err(McpError::Ethereum(e.clone())));
            },
            Some(Ok(gp)) => *gp,
        };
        let gas_estimate: u64 = 200000;
        let gas_cost = u256_checked_mul(&Uint256::from_u64(gas_estimate), &gas_price).unwrap();
        proof {
            crate::uint256::lemma_pow10_fits(fd as nat);
            crate::uint256::lemma_pow10_fits(td as nat);
        }
        let mut route: Vec<String> = Vec::new();
        route.push(from_symbol.clone());
        route.push(to_symbol.clone());
        Step::Done(
            Ok(
                SwapSimulationResult {
                    from_token: labelled_token(&from_symbol, &self.from_token),
                    to_token: labelled_token(&to_symbol, &self.to_token),
                    amount_in: format_token_amount(amount_in, fd),
                    expected_amount_out: format_token_amount(expected, td),
                    min_amount_out: format_token_amount(min_out, td),
                    gas_estimate,
                    gas_cost_eth: format_ether(&gas_cost),
                    gas_cost_usd: None,
                    route,
                    success: true,
                },
            ),
        )
    }

    /// Takes the answer to the pending fetch (decimals of each token, their
    /// symbols, the router's amounts, the gas price, in this order); any other
    /// answer is ignored.
    pub fn record(&mut self, reply: ChainReply)
        ensures
            swap_recorded(*old(self), reply, *final(self)),
    {
        if self.from_decimals.is_none() {
            if let ChainReply::Decimals(r) = reply {
                self.from_decimals = Some(r);
            }
        } else if self.to_decimals.is_none() {
            if let ChainReply::Decimals(r) = reply {
                self.to_decimals = Some(r);
            }
        } else if self.from_symbol.is_none() {
            if let ChainReply::Text(r) = reply {
                self.from_symbol = Some(r);
            }
        } else if self.to_symbol.is_none() {
            if let ChainReply::Text(r) = reply {
                self.to_symbol = Some(r);
            }
        } else if self.amounts.is_none() {
            if let ChainReply::Amounts(r) = reply {
                self.amounts = Some(r);
            }
        } else if self.gas_price.is_none() {
            if let ChainReply::Amount(r) = reply {
                self.gas_price = Some(r);
            }
        }
    }
}

impl EthereumService {
    /// Starts simulating a swap of `amount` of `from_token` into `to_token`
    /// on the service's router, with `slippage_bps` hundredths of a percent of
    /// slippage tolerated.
    pub fn simulate_swap(&self, from_token: &str, to_token: &str, amount: &str, slippage_bps: u64) -> (q:
        SwapQuery)
        ensures
            q.from_token@ == from_token@,
            q.to_token@ == to_token@,
            q.amount@ == amount@,
            q.slippage_bps == slippage_bps,
            q.router == self.uniswap_router,
            q.from_decimals is None && q.to_decimals is None && q.from_symbol is None
                && q.to_symbol is None && q.amounts is None && q.gas_price is None,
    {
        SwapQuery {
            from_token: from_token.to_owned(),
            to_token: to_token.to_owned(),
            amount: amount.to_owned(),
            slippage_bps,
            router: self.uniswap_router,
            from_decimals: None,
            to_decimals: None,
            from_symbol: None,
            to_symbol: None,
            amounts: None,
            gas_price: None,
        }
    }
}

impl EthereumService {
    /// Starts looking up all balances of `wallet_address`: ether, and each of
    /// `token_addresses` when given.
    pub fn get_all_balances(&self, wallet_address: &str, token_addresses: Option<Vec<String>>) -> (q:
        AllBalancesQuery)
        ensures
            q.wallet_address@ == wallet_address@,
            q.token_addresses == token_addresses,
            q.eth_balance is None,
            q.token_results@.len() == 0,
    {
        AllBalancesQuery {
            wallet_address: wallet_address.to_owned(),
            token_addresses,
            eth_balance: None,
            token_results: Vec::new(),
        }
    }

    /// Starts looking up the price of `token_identifier` (a CoinGecko id).
    pub fn get_token_price(&self, token_identifier: &str) -> (q: PriceQuery)
        ensures
            q.token_identifier@ == token_identifier@,
            opt_str_view(q.api_key) == opt_str_view(self.coingecko_api_key),
            q.response is None,
    {
        let api_key = match &self.coingecko_api_key {
            Some(k) => Some(k.clone()),
            None => None,
        };
        PriceQuery { token_identifier: token_identifier.to_owned(), api_key, response: None }
    }

    /// Starts looking up the ether balance of `address`.
    pub fn get_eth_balance(&self, address: &str) -> (q: EthBalanceQuery)
        ensures
            q.address@ == address@,
            q.balance is None,
    {
        EthBalanceQuery { address: address.to_owned(), balance: None }
    }

    /// Starts looking up the balance of `token_address` held by
    /// `wallet_address`.
    pub fn get_token_balance(&self, token_address: &str, wallet_address: &str) -> (q: TokenBalanceQuery)
        ensures
            q.token_address@ == token_address@,
            q.wallet_address@ == wallet_address@,
            q.balance is None && q.decimals is None && q.symbol is None && q.name is None,
    {
        TokenBalanceQuery {
            token_address: token_address.to_owned(),
            wallet_address: wallet_address.to_owned(),
            balance: None,
            decimals: None,
            symbol: None,
            name: None,
        }
    }
}

} // verus!
