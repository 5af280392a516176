//! Properties that relate the amount functions to each other.
use vstd::prelude::*;
use crate::amount::{
    amount_fraction_text, amount_whole_text, dot_index, format_ether_spec,
    format_token_amount_spec, parse_token_amount_spec, utf8_len,
};
use crate::text::{
    all_decimal_digits, decimal_digits, decimal_value, is_decimal_digit, lemma_decimal_digits_len,
    lemma_decimal_digits_shape, lemma_decimal_value_concat, lemma_decimal_value_of_digits,
    lemma_decimal_value_zeros, lemma_trim_concat, lemma_trim_shape, pad_left_zeros,
    trim_trailing_zeros, zeros, lemma_zeros_then_digit, hex_value, all_hex_digits, lemma_digit_char,
    decimal_digit_value,
};
use crate::server::{call_arguments, text_argument, tool_call_of, CallToolRequest, ToolCall};
use crate::error::McpError;
use crate::tools::tool_catalogue;
use crate::ethereum::min_amount_out_spec;
use crate::uint256::{lemma_pow10_fits, lemma_pow_positive, nat_pow, u256_from_hex_str, u256_limit};

verus! {

/// The number a decimal amount text denotes in base units when it is read in
/// base ten with `decimals` fractional places.
pub open spec fn decimal_amount_value(s: Seq<char>, decimals: nat) -> nat {
    let whole = decimal_value(amount_whole_text(s)) * nat_pow(10, decimals);
    match amount_fraction_text(s) {
        None => whole,
        Some(f) => whole + decimal_value(f) * nat_pow(10, (decimals - f.len()) as nat),
    }
}

/// `s` without a final `.`.
pub open spec fn drop_trailing_dot(s: Seq<char>) -> Seq<char> {
    if s.len() > 0 && s.last() == '.' {
        s.drop_last()
    } else {
        s
    }
}

proof fn lemma_no_dot_in_digits(s: Seq<char>)
    requires
        all_decimal_digits(s),
    ensures
        dot_index(s) == s.len(),
    decreases s.len(),
{
    if s.len() > 0 {
        assert(is_decimal_digit(s[0]));
        assert(all_decimal_digits(s.drop_first())) by {
            assert forall|i: int| 0 <= i < s.drop_first().len() implies #[trigger] is_decimal_digit(
                s.drop_first()[i],
            ) by {
                assert(is_decimal_digit(s[i + 1]));
            }
        }
        lemma_no_dot_in_digits(s.drop_first());
    }
}

proof fn lemma_dot_after_digits(a: Seq<char>, b: Seq<char>)
    requires
        all_decimal_digits(a),
    ensures
        dot_index(a + seq!['.'] + b) == a.len(),
    decreases a.len(),
{
    let s = a + seq!['.'] + b;
    if a.len() == 0 {
        assert(s[0] == '.');
    } else {
        assert(is_decimal_digit(a[0]));
        assert(s[0] == a[0]);
        assert(s.drop_first() =~= a.drop_first() + seq!['.'] + b);
        assert(all_decimal_digits(a.drop_first())) by {
            assert forall|i: int| 0 <= i < a.drop_first().len() implies #[trigger] is_decimal_digit(
                a.drop_first()[i],
            ) by {
                assert(is_decimal_digit(a[i + 1]));
            }
        }
        lemma_dot_after_digits(a.drop_first(), b);
    }
}

proof fn lemma_pad_shape(s: Seq<char>, width: nat)
    requires
        all_decimal_digits(s),
        s.len() <= width,
    ensures
        pad_left_zeros(s, width) =~= zeros((width - s.len()) as nat) + s,
        pad_left_zeros(s, width).len() == width,
        all_decimal_digits(pad_left_zeros(s, width)),
        decimal_value(pad_left_zeros(s, width)) == decimal_value(s),
{
    let z = zeros((width - s.len()) as nat);
    lemma_decimal_value_zeros((width - s.len()) as nat);
    lemma_decimal_value_concat(z, s);
    if s.len() == width {
        assert(z =~= Seq::<char>::empty());
    }
    assert forall|i: int| 0 <= i < (z + s).len() implies #[trigger] is_decimal_digit((z + s)[i]) by {
        if i >= z.len() {
            assert((z + s)[i] == s[i - z.len()]);
        }
    }
}

/// The fractional digits that `format_token_amount` writes for a nonzero
/// remainder: they are digits, at most `decimals` of them, not empty, and read
/// back (scaled to `decimals` places) as the remainder.
proof fn lemma_fraction_digits(fraction: nat, decimals: nat)
    requires
        0 < fraction < nat_pow(10, decimals),
    ensures
        ({
            let t = trim_trailing_zeros(pad_left_zeros(decimal_digits(fraction), decimals));
            &&& t.len() >= 1
            &&& t.len() <= decimals
            &&& all_decimal_digits(t)
            &&& t.last() != '0'
            &&& decimal_value(t) * nat_pow(10, (decimals - t.len()) as nat) == fraction
        }),
{
    let d = decimal_digits(fraction);
    if decimals == 0 {
        assert(nat_pow(10, 0) == 1);
    }
    lemma_decimal_digits_shape(fraction);
    lemma_decimal_digits_len(fraction, decimals);
    lemma_decimal_value_of_digits(fraction);
    lemma_pad_shape(d, decimals);
    let p = pad_left_zeros(d, decimals);
    let t = trim_trailing_zeros(p);
    lemma_trim_shape(p);
    let rest = zeros((p.len() - t.len()) as nat);
    lemma_decimal_value_zeros((p.len() - t.len()) as nat);
    lemma_decimal_value_concat(t, rest);
    if t.len() == 0 {
        assert(p =~= rest);
        assert(decimal_value(p) == 0);
    }
    assert forall|i: int| 0 <= i < t.len() implies #[trigger] is_decimal_digit(t[i]) by {
        assert(t[i] == p[i]);
    }
}

/// Read in base ten, what `format_token_amount` writes is the amount it was
/// given: the whole part times `10^decimals` plus the fractional digits
/// scaled to `decimals` places.
pub proof fn lemma_format_token_amount_reads_back(amount: nat, decimals: nat)
    ensures
        decimal_amount_value(format_token_amount_spec(amount, decimals), decimals) == amount,
{
    let p = nat_pow(10, decimals);
    lemma_pow_positive(10, decimals);
    let whole = amount / p;
    let fraction = amount % p;
    vstd::arithmetic::div_mod::lemma_fundamental_div_mod(amount as int, p as int);
    assert(whole * p == p * whole) by (nonlinear_arith);
    let w = decimal_digits(whole);
    lemma_decimal_digits_shape(whole);
    lemma_decimal_value_of_digits(whole);
    let s = format_token_amount_spec(amount, decimals);
    if fraction == 0 {
        lemma_no_dot_in_digits(w);
        assert(amount_whole_text(s) =~= w);
        assert(amount_fraction_text(s) is None);
        assert(decimal_amount_value(s, decimals) == whole * p);
    } else {
        lemma_fraction_digits(fraction, decimals);
        let t = trim_trailing_zeros(pad_left_zeros(decimal_digits(fraction), decimals));
        assert(s == w + seq!['.'] + t);
        lemma_dot_after_digits(w, t);
        assert(amount_whole_text(s) =~= w);
        let rest = s.skip(dot_index(s) + 1int);
        assert(rest =~= t);
        lemma_no_dot_in_digits(t);
        assert(rest.take(dot_index(rest) as int) =~= t);
        assert(amount_fraction_text(s) == Some(t));
        assert(decimal_amount_value(s, decimals) == whole * p + decimal_value(t) * nat_pow(10, (decimals - t.len()) as nat));
    }
}

/// `format_token_amount(wei, 18)` is what `format_ether(wei)` writes with the
/// trailing zeros, and then a trailing `.`, removed.
pub proof fn lemma_format_token_amount_trims_format_ether(wei: nat)
    ensures
        format_token_amount_spec(wei, 18) == drop_trailing_dot(
            trim_trailing_zeros(format_ether_spec(wei)),
        ),
{
    let p = nat_pow(10, 18);
    lemma_pow_positive(10, 18);
    let whole = wei / p;
    let fraction = wei % p;
    let w = decimal_digits(whole);
    let head = w + seq!['.'];
    let padded = pad_left_zeros(decimal_digits(fraction), 18);
    assert(format_ether_spec(wei) == head + padded);
    lemma_trim_concat(head, padded);
    assert(head.last() == '.');
    assert(trim_trailing_zeros(head) == head);
    assert(head.drop_last() =~= w);
    if fraction == 0 {
        reveal_with_fuel(decimal_digits, 1);
        assert(decimal_digits(0) =~= seq!['0']);
        assert(padded =~= zeros(17) + seq!['0']);
        assert(padded =~= zeros(18));
        lemma_trim_shape(padded);
        let t = trim_trailing_zeros(padded);
        if t.len() > 0 {
            assert(t.last() == padded[t.len() - 1]);
        }
    } else {
        lemma_fraction_digits(fraction, 18);
        let t = trim_trailing_zeros(padded);
        assert(is_decimal_digit(t[t.len() - 1]));
        assert((head + t).last() == t.last());
    }
}

/// The fractional digits `format_token_amount` writes for `amount`.
pub open spec fn written_fraction(amount: nat, decimals: nat) -> Seq<char> {
    trim_trailing_zeros(pad_left_zeros(decimal_digits(amount % nat_pow(10, decimals)), decimals))
}

/// `parse_token_amount` reads back what `format_token_amount` writes when the
/// written amount has a single whole digit and at most one significant
/// fractional digit, within 64 places. (Both pieces are read as hexadecimal,
/// which agrees with base ten only on such texts; with no fractional piece the
/// reader counts one place, so at least one decimal is needed.)
pub proof fn lemma_parse_reads_back_single_digit_amounts(amount: nat, decimals: nat)
    requires
        amount < u256_limit(),
        1 <= decimals <= 77,
        amount / nat_pow(10, decimals) < 10,
        written_fraction(amount, decimals).len() <= 64,
        forall|i: int|
            0 <= i < written_fraction(amount, decimals).len() - 1 ==> #[trigger] written_fraction(
                amount,
                decimals,
            )[i] == '0',
    ensures
        parse_token_amount_spec(format_token_amount_spec(amount, decimals), decimals) == Some(
            Ok::<nat, Seq<char>>(amount),
        ),
{
    let p = nat_pow(10, decimals);
    lemma_pow10_fits(decimals);
    lemma_pow_positive(10, decimals);
    let whole = amount / p;
    let fraction = amount % p;
    vstd::arithmetic::div_mod::lemma_fundamental_div_mod(amount as int, p as int);
    assert(whole * p == p * whole) by (nonlinear_arith);
    let w = decimal_digits(whole);
    lemma_digit_char(whole);
    assert(w =~= seq![crate::text::digit_char(whole)]);
    lemma_zeros_then_digit(0, crate::text::digit_char(whole));
    assert(zeros(0) + w =~= w);
    assert(u256_from_hex_str(w) == Some(whole));
    lemma_decimal_digits_shape(whole);
    let s = format_token_amount_spec(amount, decimals);
    lemma_format_token_amount_reads_back(amount, decimals);
    if fraction == 0 {
        lemma_no_dot_in_digits(w);
        assert(amount_whole_text(s) =~= w);
        assert(amount_fraction_text(s) is None);
        let z = seq!['0'];
        lemma_zeros_then_digit(0, '0');
        assert(zeros(0) + z =~= z);
        assert(u256_from_hex_str(z) == Some(0nat));
        vstd::utf8::is_ascii_chars_encode_utf8(z);
        assert(utf8_len(z) == 1);
        assert(0 * nat_pow(10, (decimals - 1) as nat) == 0);
    } else {
        lemma_fraction_digits(fraction, decimals);
        let t = written_fraction(amount, decimals);
        assert(s == w + seq!['.'] + t);
        lemma_dot_after_digits(w, t);
        assert(amount_whole_text(s) =~= w);
        let rest = s.skip(dot_index(s) + 1int);
        assert(rest =~= t);
        lemma_no_dot_in_digits(t);
        assert(rest.take(dot_index(rest) as int) =~= t);
        assert(amount_fraction_text(s) == Some(t));
        let c = t.last();
        assert(is_decimal_digit(t[t.len() - 1]));
        assert(t =~= zeros((t.len() - 1) as nat) + seq![c]);
        lemma_zeros_then_digit((t.len() - 1) as nat, c);
        crate::text::lemma_digits_are_ascii(t);
        vstd::utf8::is_ascii_chars_encode_utf8(t);
        assert(utf8_len(t) == t.len());
        assert(u256_from_hex_str(t) == Some(decimal_value(t)));
    }
}

/// Every tool the server lists is served: a call naming it is accepted
/// exactly when each parameter the listing marks as required is given as a
/// string.
pub proof fn lemma_listed_tools_are_served(request: CallToolRequest, r: Result<ToolCall, McpError>, i: int)
    requires
        0 <= i < tool_catalogue().len(),
        request.name@ == tool_catalogue()[i].name,
        tool_call_of(request, r),
    ensures
        r is Ok <==> (forall|j: int|
            0 <= j < tool_catalogue()[i].parameters.len() && tool_catalogue()[i].parameters[j].required
                ==> text_argument(call_arguments(request), #[trigger] tool_catalogue()[i].parameters[j].name)
                is Some),
{
    reveal_strlit("get_balance");
    reveal_strlit("get_token_price");
    reveal_strlit("swap_tokens");
    assert("swap_tokens"@[0] != "get_balance"@[0]);
    assert("swap_tokens"@[0] != "get_token_price"@[0]);
    assert("get_token_price"@[4] != "get_balance"@[4]);
    let params = tool_catalogue()[i].parameters;
    let args = call_arguments(request);
    let all_given = forall|j: int|
        0 <= j < params.len() && params[j].required ==> text_argument(args, #[trigger] params[j].name) is Some;
    if r is Ok {
        assert forall|j: int| 0 <= j < params.len() && params[j].required implies text_argument(
            args,
            #[trigger] params[j].name,
        ) is Some by {
            if i == 0 {
                assert(request.name@ == "get_balance"@);
                assert(j == 0);
                assert(params[j].name == "address"@);
            } else if i == 1 {
                assert(request.name@ == "get_token_price"@);
                assert(j == 0);
                assert(params[j].name == "token_identifier"@);
            } else {
                assert(request.name@ == "swap_tokens"@);
                assert(request.name@ != "get_balance"@);
                assert(request.name@ != "get_token_price"@);
                assert(j <= 2);
            }
        }
    }
    if all_given {
        if i == 0 {
            assert(request.name@ == "get_balance"@);
        } else if i == 1 {
            assert(request.name@ == "get_token_price"@);
            assert(request.name@ != "get_balance"@);
        } else {
            assert(request.name@ == "swap_tokens"@);
            assert(request.name@ != "get_balance"@);
            assert(request.name@ != "get_token_price"@);
        }
        assert(params[0].required);
        assert(text_argument(args, params[0].name) is Some);
        if i == 2 {
            assert(params[1].required && params[2].required);
            assert(text_argument(args, params[1].name) is Some);
            assert(text_argument(args, params[2].name) is Some);
        }
    }
}

/// The least output a swap report accepts never exceeds the expected output,
/// equals it with no slippage tolerated, and shrinks as more slippage is
/// tolerated.
pub proof fn lemma_min_amount_out_bounded(expected: nat, slippage_bps: nat, more_bps: nat)
    requires
        slippage_bps <= more_bps <= 10000,
    ensures
        min_amount_out_spec(expected, slippage_bps) <= expected,
        slippage_bps == 0 ==> min_amount_out_spec(expected, slippage_bps) == expected,
        min_amount_out_spec(expected, more_bps) <= min_amount_out_spec(expected, slippage_bps),
{
    let kept = (10000 - slippage_bps) as nat;
    let kept_more = (10000 - more_bps) as nat;
    assert(expected * kept <= expected * 10000) by (nonlinear_arith)
        requires
            kept <= 10000,
    ;
    assert(expected * kept_more <= expected * kept) by (nonlinear_arith)
        requires
            kept_more <= kept,
    ;
    assert((expected * 10000) / 10000 == expected) by (nonlinear_arith);
    assert((expected * kept) / 10000 <= (expected * 10000) / 10000) by (nonlinear_arith)
        requires
            expected * kept <= expected * 10000,
    ;
    assert((expected * kept_more) / 10000 <= (expected * kept) / 10000) by (nonlinear_arith)
        requires
            expected * kept_more <= expected * kept,
    ;
}

} // verus!
