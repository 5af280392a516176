//! Properties of the service's queries and of the tool listing: which contract
//! each fetch is addressed to, where each answer ends up, and how the listing
//! and the call handler agree.
use vstd::prelude::*;
use crate::address::address_from_str;
use crate::amount::{format_token_amount_spec, parse_token_amount_spec};
use crate::error::McpError;
use crate::ethereum::{
    all_balances_step, entry_index, eth_balance_step, found_balances, EthBalanceQuery, PriceEntry, opt_str_view, price_step, swap_overflows, swap_recorded,
    swap_step, text_or, token_balance_step, tokens_asked, AllBalancesQuery, BalancesStep,
    ChainQuery, ChainReply, PriceQuery, PriceResult, Step, SwapQuery, SwapSimulationResult,
    TokenBalance, TokenBalanceQuery,
};
use crate::server::{
    call_arguments, list_argument, list_view, slippage_argument, text_argument, tool_call_of,
    CallToolRequest, ToolCall,
};
use crate::tools::{tool_catalogue, ParamKind};

verus! {

/// While a swap simulation waits for a token symbol, the symbol it asks for
/// is read from the contract of the token whose symbol is missing (the
/// token swapped from first, then the token swapped to), and the answer is
/// kept as that token's symbol.
pub proof fn lemma_swap_symbol_comes_from_its_token(
    q: SwapQuery,
    step: Step<SwapSimulationResult>,
    answer: Result<String, String>,
    next: SwapQuery,
)
    requires
        !swap_overflows(q),
        swap_step(q, step),
        step matches Step::Query(ChainQuery::TokenSymbol { token: _ }),
        swap_recorded(q, ChainReply::Text(answer), next),
    ensures
        step matches Step::Query(ChainQuery::TokenSymbol { token: t }) && {
            ||| {
                &&& q.from_symbol is None
                &&& address_from_str(q.from_token@) == Some(t.bytes@)
                &&& next.from_symbol == Some(answer)
                &&& next.to_symbol == q.to_symbol
            }
            ||| {
                &&& q.from_symbol is Some
                &&& q.to_symbol is None
                &&& address_from_str(q.to_token@) == Some(t.bytes@)
                &&& next.to_symbol == Some(answer)
                &&& next.from_symbol == q.from_symbol
            }
        },
{
}

/// A swap report names the token swapped from by the symbol kept for it,
/// followed by its address in parentheses, and the token swapped to likewise;
/// the route lists the two symbols in that order (`UNKNOWN` where the symbol
/// could not be read).
pub proof fn lemma_swap_report_names_each_token_by_its_symbol(q: SwapQuery, step: Step<SwapSimulationResult>)
    requires
        !swap_overflows(q),
        swap_step(q, step),
        step matches Step::Done(Ok(_)),
    ensures
        step matches Step::Done(Ok(r)) && q.from_symbol matches Some(fs) && q.to_symbol matches Some(ts)
            && r.from_token@ == text_or(fs, "UNKNOWN"@) + " ("@ + q.from_token@ + ")"@
            && r.to_token@ == text_or(ts, "UNKNOWN"@) + " ("@ + q.to_token@ + ")"@
            && r.route@.len() == 2 && r.route@[0]@ == text_or(fs, "UNKNOWN"@)
            && r.route@[1]@ == text_or(ts, "UNKNOWN"@),
{
}

/// The balance a token balance query fetches is `balanceOf` the wallet, on
/// the token's contract; it is fetched only while no balance is known.
pub proof fn lemma_token_balance_reads_the_wallet(q: TokenBalanceQuery, step: Step<TokenBalance>)
    requires
        token_balance_step(q, step),
        step matches Step::Query(ChainQuery::TokenBalanceOf { .. }),
    ensures
        step matches Step::Query(ChainQuery::TokenBalanceOf { token: t, account: a })
            && address_from_str(q.wallet_address@) == Some(a.bytes@)
            && address_from_str(q.token_address@) == Some(t.bytes@) && q.balance is None,
{
}

/// The balance a token lookup yielded, if it succeeded.
pub open spec fn successful_balance(lookup: Result<TokenBalance, McpError>) -> Option<TokenBalance> {
    match lookup {
        Ok(b) => Some(b),
        Err(_) => None,
    }
}

proof fn lemma_found_balances_are_the_successes(results: Seq<Result<TokenBalance, McpError>>)
    ensures
        found_balances(results) == results.filter_map(|l: Result<TokenBalance, McpError>| successful_balance(l)),
    decreases results.len(),
{
    if results.len() > 0 {
        lemma_found_balances_are_the_successes(results.drop_last());
        let rest = results.drop_last().filter_map(|l: Result<TokenBalance, McpError>| successful_balance(l));
        if let Ok(b) = results.last() {
            assert(rest.push(b) =~= rest + seq![b]);
        }
    }
}

/// Once the ether balance is known and every token has been looked up, an
/// all-balances query reports exactly the successful token lookups, each
/// once, in the order the tokens were given, whatever balance they show; so
/// it reports as many token balances as lookups succeeded.
pub proof fn lemma_all_balances_report_every_success(q: AllBalancesQuery, step: BalancesStep)
    requires
        all_balances_step(q, step),
        q.eth_balance matches Some(Ok(_)),
        q.token_results@.len() >= tokens_asked(q.token_addresses).len(),
    ensures
        step matches BalancesStep::Done(Ok(r)) && r.token_balances@ == q.token_results@.filter_map(
            |l: Result<TokenBalance, McpError>| successful_balance(l),
        ),
{
    lemma_found_balances_are_the_successes(q.token_results@);
}

/// The price request for a token asks CoinGecko's simple-price endpoint for
/// its USD and ETH prices together with its market cap and the time of its
/// last update, with or without an API key; a key only adds
/// `&x_cg_demo_api_key=` and the key at the end.
pub proof fn lemma_price_request_with_and_without_key(
    keyless: PriceQuery,
    keyless_step: Step<PriceResult>,
    keyed: PriceQuery,
    keyed_step: Step<PriceResult>,
    key: Seq<char>,
)
    requires
        price_step(keyless, keyless_step),
        price_step(keyed, keyed_step),
        keyless.response is None,
        keyed.response is None,
        keyless.token_identifier@ == keyed.token_identifier@,
        opt_str_view(keyless.api_key) is None,
        opt_str_view(keyed.api_key) == Some(key),
    ensures
        keyless_step matches Step::Query(ChainQuery::PriceLookup { url: plain })
            && keyed_step matches Step::Query(ChainQuery::PriceLookup { url: with_key })
            && plain@ == "https://api.coingecko.com/api/v3/simple/price?ids="@ + keyless.token_identifier@
            + "&vs_currencies=usd,eth&include_market_cap=true&include_last_updated_at=true"@
            && with_key@ == plain@ + "&x_cg_demo_api_key="@ + key,
{
}

/// Each parameter the tool listing gives is read by the call handler as the
/// kind the listing says: once a call is accepted, a parameter listed as a
/// string was given as a string, one listed as a list of strings is taken
/// from the array given under its name, and one listed as a number is taken
/// from the number given (its default otherwise).
pub proof fn lemma_listed_parameters_are_read_as_listed(
    request: CallToolRequest,
    r: Result<ToolCall, McpError>,
    i: int,
    j: int,
)
    requires
        0 <= i < tool_catalogue().len(),
        0 <= j < tool_catalogue()[i].parameters.len(),
        request.name@ == tool_catalogue()[i].name,
        tool_call_of(request, r),
        r is Ok,
    ensures
        tool_catalogue()[i].parameters[j].kind == ParamKind::Text ==> text_argument(
            call_arguments(request),
            tool_catalogue()[i].parameters[j].name,
        ) is Some,
        tool_catalogue()[i].parameters[j].kind == ParamKind::TextList ==> (r matches Ok(
            ToolCall::GetBalance { token_addresses: t, .. },
        ) && list_view(t) == list_argument(call_arguments(request), tool_catalogue()[i].parameters[j].name)),
        tool_catalogue()[i].parameters[j].kind == ParamKind::Number ==> (r matches Ok(
            ToolCall::SwapTokens { slippage_bps: s, .. },
        ) && s == slippage_argument(call_arguments(request))),
{
    reveal_strlit("get_balance");
    reveal_strlit("get_token_price");
    reveal_strlit("swap_tokens");
    assert("swap_tokens"@[0] != "get_balance"@[0]);
    assert("swap_tokens"@[0] != "get_token_price"@[0]);
    assert("get_token_price"@[4] != "get_balance"@[4]);
    if i == 0 {
        assert(request.name@ == "get_balance"@);
    } else if i == 1 {
        assert(request.name@ == "get_token_price"@);
        assert(request.name@ != "get_balance"@);
    } else {
        assert(request.name@ == "swap_tokens"@);
        assert(request.name@ != "get_balance"@);
        assert(request.name@ != "get_token_price"@);
    }
}

/// Every fetch an ether balance query makes is the balance of the address it
/// was given.
pub proof fn lemma_eth_balance_reads_the_address(q: EthBalanceQuery, step: Step<String>)
    requires
        eth_balance_step(q, step),
        step is Query,
    ensures
        step matches Step::Query(ChainQuery::EthBalance { account: a })
            && address_from_str(q.address@) == Some(a.bytes@) && q.balance is None,
{
}

/// Every fetch a token balance query makes is addressed to the token's own
/// contract, and the only account it reads is the wallet.
pub proof fn lemma_token_balance_asks_only_the_token(q: TokenBalanceQuery, step: Step<TokenBalance>)
    requires
        token_balance_step(q, step),
        step is Query,
    ensures
        step matches Step::Query(query) && match query {
            ChainQuery::TokenBalanceOf { token: t, account: a } => address_from_str(q.token_address@)
                == Some(t.bytes@) && address_from_str(q.wallet_address@) == Some(a.bytes@),
            ChainQuery::TokenDecimals { token: t } => address_from_str(q.token_address@) == Some(t.bytes@),
            ChainQuery::TokenSymbol { token: t } => address_from_str(q.token_address@) == Some(t.bytes@),
            ChainQuery::TokenName { token: t } => address_from_str(q.token_address@) == Some(t.bytes@),
            _ => false,
        },
{
}

/// A token balance report gives the balance fetched from the token's
/// contract, written with the decimals that contract gave, for the token
/// address asked about.
pub proof fn lemma_token_balance_report_uses_its_answers(q: TokenBalanceQuery, step: Step<TokenBalance>)
    requires
        token_balance_step(q, step),
        step matches Step::Done(Ok(_)),
    ensures
        step matches Step::Done(Ok(b)) && q.balance matches Some(Ok(raw)) && q.decimals matches Some(
            Ok(d),
        ) && b.decimals == d && b.balance@ == format_token_amount_spec(raw@, d as nat)
            && b.token_address@ == q.token_address@,
{
}

/// The fetches of a swap simulation go where their answers belong: each
/// token's decimals and symbol are read from that token's own contract (the
/// token swapped from first), and the router is asked, on the service's
/// router, for the output of the amount read from the input along the path
/// from the first token to the second.
pub proof fn lemma_swap_asks_each_token_about_itself(q: SwapQuery, step: Step<SwapSimulationResult>)
    requires
        !swap_overflows(q),
        swap_step(q, step),
        step is Query,
    ensures
        step matches Step::Query(query) && match query {
            ChainQuery::TokenDecimals { token: t } => if q.from_decimals is None {
                address_from_str(q.from_token@) == Some(t.bytes@)
            } else {
                q.to_decimals is None && address_from_str(q.to_token@) == Some(t.bytes@)
            },
            ChainQuery::TokenSymbol { token: t } => if q.from_symbol is None {
                address_from_str(q.from_token@) == Some(t.bytes@)
            } else {
                q.to_symbol is None && address_from_str(q.to_token@) == Some(t.bytes@)
            },
            ChainQuery::AmountsOut { router: r, amount_in: a, from: x, to: y } => r == q.router
                && address_from_str(q.from_token@) == Some(x.bytes@) && address_from_str(q.to_token@)
                == Some(y.bytes@) && parse_token_amount_spec(q.amount@, 18) == Some(
                Ok::<nat, Seq<char>>(a@),
            ),
            ChainQuery::GasPrice => true,
            _ => false,
        },
{
}

/// A swap report writes the amount put in with the decimals of the token
/// swapped from, and the router's output for the second token (and the least
/// output accepted) with the decimals of the token swapped to.
pub proof fn lemma_swap_report_writes_each_amount_with_its_token(q: SwapQuery, step: Step<SwapSimulationResult>)
    requires
        !swap_overflows(q),
        swap_step(q, step),
        step matches Step::Done(Ok(_)),
    ensures
        ({
            &&& step matches Step::Done(Ok(r))
            &&& q.from_decimals matches Some(Ok(fd))
            &&& q.to_decimals matches Some(Ok(td))
            &&& q.amounts matches Some(Ok(v))
            &&& v@.len() >= 2
            &&& parse_token_amount_spec(q.amount@, 18) matches Some(Ok(amount_in))
            &&& r.amount_in@ == format_token_amount_spec(amount_in, fd as nat)
            &&& r.expected_amount_out@ == format_token_amount_spec(v@[1]@, td as nat)
            &&& r.min_amount_out@ == format_token_amount_spec(
                v@[1]@ * (10000 - q.slippage_bps) as nat / 10000,
                td as nat,
            )
        }),
{
}

/// An all-balances query asks for the ether balance of the wallet first, then
/// for each token in the order given, always for the wallet.
pub proof fn lemma_all_balances_ask_in_order(q: AllBalancesQuery, step: BalancesStep)
    requires
        all_balances_step(q, step),
    ensures
        q.eth_balance is None ==> (step matches BalancesStep::EthBalance(w) && w@ == q.wallet_address@),
        (q.eth_balance matches Some(Ok(_)) && q.token_results@.len() < tokens_asked(q.token_addresses).len())
            ==> (step matches BalancesStep::TokenBalance { token_address: t, wallet_address: w }
            && t@ == tokens_asked(q.token_addresses)[q.token_results@.len() as int]@ && w@
            == q.wallet_address@),
{
}

/// A price lookup reports the entry of the response that belongs to the
/// token asked about (the first one, if several do), and says the token is
/// not found only when no entry belongs to it.
pub proof fn lemma_price_picks_the_tokens_entry(q: PriceQuery, step: Step<PriceResult>)
    requires
        price_step(q, step),
        q.response matches Some(Ok(_)),
    ensures
        q.response matches Some(Ok(entries)) && match step {
            Step::Done(Ok(r)) => r.entry < entries@.len() && entries@[r.entry as int].id@ == q.token_identifier@
                && (forall|k: int| 0 <= k < r.entry ==> entries@[k].id@ != q.token_identifier@)
                && r.token@ == q.token_identifier@,
            Step::Done(Err(e)) => forall|k: int| 0 <= k < entries@.len() ==> entries@[k].id@ != q.token_identifier@,
            Step::Query(_) => false,
        },
{
    if let Some(Ok(entries)) = q.response {
        lemma_entry_index_finds(entries@, q.token_identifier@);
    }
}

proof fn lemma_entry_index_finds(entries: Seq<PriceEntry>, id: Seq<char>)
    ensures
        match entry_index(entries, id) {
            Some(i) => i < entries.len() && entries[i as int].id@ == id && (forall|k: int|
                0 <= k < i ==> entries[k].id@ != id),
            None => forall|k: int| 0 <= k < entries.len() ==> entries[k].id@ != id,
        },
    decreases entries.len(),
{
    if entries.len() > 0 {
        lemma_entry_index_finds(entries.drop_first(), id);
        if entries[0].id@ != id {
            assert forall|k: int| 0 < k < entries.len() implies entries[k] == entries.drop_first()[k - 1] by {}
        }
    }
}

/// A swap call takes the token swapped from, the token swapped to and the
/// amount from the string arguments of those names, and a balance call its
/// address and a price call its token from theirs.
pub proof fn lemma_call_values_come_from_their_arguments(request: CallToolRequest, r: Result<ToolCall, McpError>)
    requires
        tool_call_of(request, r),
    ensures
        r matches Ok(ToolCall::SwapTokens { from_token: f, to_token: t, amount: a, .. }) ==> (text_argument(
            call_arguments(request),
            "from_token"@,
        ) == Some(f@) && text_argument(call_arguments(request), "to_token"@) == Some(t@) && text_argument(
            call_arguments(request),
            "amount"@,
        ) == Some(a@)),
        r matches Ok(ToolCall::GetBalance { address: a, .. }) ==> text_argument(
            call_arguments(request),
            "address"@,
        ) == Some(a@),
        r matches Ok(ToolCall::GetTokenPrice { token_identifier: t }) ==> text_argument(
            call_arguments(request),
            "token_identifier"@,
        ) == Some(t@),
{
}

} // verus!
