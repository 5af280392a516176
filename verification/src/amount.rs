//! Token amounts: how raw integer amounts are written with decimals, and how
//! amounts typed by a user are read.
use vstd::prelude::*;
use vstd::string::StrSliceExecFns;
use ethers_core::types::U256;
use crate::text::{decimal_digits, pad_left_zeros, push_char, trim_trailing_zeros, zeros};
use crate::text::{concat, u64_to_decimal};
use crate::uint256::{
    lemma_pow10_fits, lemma_pow_monotone, nat_pow, u256_checked_add, u256_checked_mul,
    u256_checked_pow, u256_div, u256_from_hex_str, u256_from_str, u256_limit,
    u256_parse_error_text, u256_rem, u256_to_decimal, Uint256,
};

verus! {

/// How `amount` reads as a number with `decimals` fractional digits: the whole
/// part, then (only if the fractional part is not zero) a `.` and the
/// fractional digits, zero-padded to `decimals` places and without trailing
/// zeros.
pub open spec fn format_token_amount_spec(amount: nat, decimals: nat) -> Seq<char> {
    let divisor = nat_pow(10, decimals);
    let whole = amount / divisor;
    let fractional = amount % divisor;
    if fractional == 0 {
        decimal_digits(whole)
    } else {
        let trimmed = trim_trailing_zeros(pad_left_zeros(decimal_digits(fractional), decimals));
        if trimmed.len() == 0 {
            decimal_digits(whole)
        } else {
            decimal_digits(whole) + seq!['.'] + trimmed
        }
    }
}

/// `10^decimals` as a 256-bit value.
fn power_of_ten(decimals: u8) -> (p: Uint256)
    requires
        nat_pow(10, decimals as nat) < u256_limit(),
    ensures
        p@ == nat_pow(10, decimals as nat),
        p@ > 0,
{
    proof {
        lemma_pow10_fits(decimals as nat);
    }
    let r = u256_checked_pow(&Uint256::from_u64(10), &Uint256::from_u64(decimals as u64));
    r.unwrap()
}

/// `zeros(width - s.len())` in front of `s`.
fn pad_with_zeros(s: &str, width: usize) -> (r: String)
    ensures
        r@ == pad_left_zeros(s@, width as nat),
{
    let n = s.unicode_len();
    let mut r = String::new();
    if n < width {
        let mut i: usize = 0;
        while i < width - n
            invariant
                n < width,
                i <= width - n,
                r@ == zeros(i as nat),
            decreases width - n - i,
        {
            push_char(&mut r, '0');
            i = i + 1;
            proof {
                assert(r@ =~= zeros(i as nat));
            }
        }
    }
    r.append(s);
    proof {
        if n >= width {
            assert(r@ =~= s@);
        } else {
            assert(r@ =~= zeros((width - n) as nat) + s@);
        }
    }
    r
}

/// Length of `s` once its trailing zeros are dropped.
fn trimmed_len(s: &str) -> (k: usize)
    ensures
        k <= s@.len(),
        trim_trailing_zeros(s@) == s@.subrange(0, k as int),
{
    let mut k = s.unicode_len();
    proof {
        assert(s@.subrange(0, k as int) =~= s@);
    }
    while k > 0 && s.get_char(k - 1) == '0'
        invariant
            k <= s@.len(),
            trim_trailing_zeros(s@) == trim_trailing_zeros(s@.subrange(0, k as int)),
        decreases k,
    {
        proof {
            assert(s@.subrange(0, k as int).drop_last() =~= s@.subrange(0, k - 1));
        }
        k = k - 1;
    }
    k
}

/// Writes `amount` as a number with `decimals` fractional digits, dropping
/// trailing zeros (and the `.` with them).
pub fn format_token_amount(amount: Uint256, decimals: u8) -> (s: String)
    requires
        nat_pow(10, decimals as nat) < u256_limit(),
    ensures
        s@ == format_token_amount_spec(amount@, decimals as nat),
{
    let divisor = power_of_ten(decimals);
    let whole = u256_div(&amount, &divisor);
    let fractional = u256_rem(&amount, &divisor);
    let mut result = u256_to_decimal(&whole);
    if fractional.is_zero() {
        return result;
    }
    let fractional_str = u256_to_decimal(&fractional);
    let padded = pad_with_zeros(fractional_str.as_str(), decimals as usize);
    let k = trimmed_len(padded.as_str());
    if k == 0 {
        return result;
    }
    push_char(&mut result, '.');
    result.append(padded.as_str().substring_char(0, k));
    result
}

/// What `format_ether` writes for `wei`: the whole ether, a `.`, and the
/// remaining wei as exactly 18 digits (zero-padded on the left).
pub open spec fn format_ether_spec(wei: nat) -> Seq<char> {
    decimal_digits(wei / nat_pow(10, 18)) + seq!['.'] + pad_left_zeros(decimal_digits(wei % nat_pow(10, 18)), 18)
}

/// `ethers_core::utils::format_ether` on a `U256`. Claimed: the result is
/// `format_ether_spec(wei)` (`format_units(wei, 18)`: quotient by `10^18`,
/// `.`, remainder zero-padded to 18 places).
#[verifier::external_body]
pub(crate) fn format_ether(wei: &Uint256) -> (s: String)
    ensures
        s@ == format_ether_spec(wei@),
{
    ethers_core::utils::format_ether(U256([wei.limb0, wei.limb1, wei.limb2, wei.limb3]))
}

/// Position of the first `.` in `s`, or `s.len()` when there is none.
pub open spec fn dot_index(s: Seq<char>) -> nat
    decreases s.len(),
{
    if s.len() == 0 {
        0
    } else if s[0] == '.' {
        0
    } else {
        1 + dot_index(s.drop_first())
    }
}

/// The first piece of `s.split('.')`.
pub open spec fn amount_whole_text(s: Seq<char>) -> Seq<char> {
    s.take(dot_index(s) as int)
}

/// The second piece of `s.split('.')`, when `s` holds a `.`.
pub open spec fn amount_fraction_text(s: Seq<char>) -> Option<Seq<char>> {
    if dot_index(s) == s.len() {
        None
    } else {
        let rest = s.skip(dot_index(s) + 1int);
        Some(rest.take(dot_index(rest) as int))
    }
}

/// Number of bytes of the UTF-8 encoding of `s` (what `str::len` gives).
pub open spec fn utf8_len(s: Seq<char>) -> nat {
    vstd::utf8::encode_utf8(s).len()
}

/// What reading `amount` with `decimals` decimals gives: `None` where the
/// arithmetic overflows 256 bits, else the amount in base units or the error
/// message. Both pieces are read by `U256::from_str`, that is as hexadecimal;
/// a missing fractional piece counts as `"0"`, and the fractional piece is
/// scaled by `10^(decimals - its byte length)`.
pub open spec fn parse_token_amount_spec(amount: Seq<char>, decimals: nat) -> Option<Result<nat, Seq<char>>> {
    let whole_text = amount_whole_text(amount);
    match u256_from_hex_str(whole_text) {
        None => Some(Err("Invalid amount format: "@ + u256_parse_error_text(whole_text))),
        Some(whole) => {
            let multiplier = nat_pow(10, decimals);
            if multiplier >= u256_limit() || whole * multiplier >= u256_limit() {
                None
            } else {
                let fraction_text = match amount_fraction_text(amount) {
                    Some(f) => f,
                    None => seq!['0'],
                };
                let fraction_len = (utf8_len(fraction_text) as usize) as u32;
                if fraction_len > decimals {
                    Some(Err("Too many decimal places: "@ + decimal_digits(fraction_len as nat) + " > "@ + decimal_digits(decimals)))
                } else if fraction_text.len() == 0 {
                    Some(Ok(whole * multiplier))
                } else {
                    match u256_from_hex_str(fraction_text) {
                        None => Some(Err("Invalid fractional part: "@ + u256_parse_error_text(fraction_text))),
                        Some(fraction) => {
                            let scaled = fraction * nat_pow(10, (decimals - fraction_len) as nat);
                            if scaled >= u256_limit() || whole * multiplier + scaled >= u256_limit() {
                                None
                            } else {
                                Some(Ok(whole * multiplier + scaled))
                            }
                        },
                    }
                }
            }
        },
    }
}

proof fn lemma_dot_index(s: Seq<char>, i: int)
    requires
        0 <= i <= s.len(),
        forall|j: int| 0 <= j < i ==> s[j] != '.',
        i == s.len() || s[i] == '.',
    ensures
        dot_index(s) == i,
    decreases i,
{
    if i > 0 {
        lemma_dot_index(s.drop_first(), i - 1);
    }
}

/// `from` plus the position of the first `.` at or after `from`.
fn find_dot(s: &str, from: usize) -> (k: usize)
    requires
        from <= s@.len(),
    ensures
        k == from + dot_index(s@.skip(from as int)),
        k <= s@.len(),
{
    let n = s.unicode_len();
    let mut k = from;
    while k < n && s.get_char(k) != '.'
        invariant
            from <= k <= n,
            n == s@.len(),
            forall|j: int| from <= j < k ==> s@[j] != '.',
        decreases n - k,
    {
        k = k + 1;
    }
    proof {
        lemma_dot_index(s@.skip(from as int), k - from);
    }
    k
}

/// The outcome of reading an amount.
pub enum AmountReading {
    /// The amount in base units.
    Value(Uint256),
    /// The input was refused, with this message.
    Rejected(String),
    /// The arithmetic overflowed 256 bits.
    Overflow,
}

impl AmountReading {
    pub open spec fn view_outcome(self) -> Option<Result<nat, Seq<char>>> {
        match self {
            AmountReading::Value(v) => Some(Ok(v@)),
            AmountReading::Rejected(m) => Some(Err(m@)),
            AmountReading::Overflow => None,
        }
    }
}

/// Reads `amount` as `parse_token_amount` does, reporting overflow instead of
/// failing on it.
pub fn read_token_amount(amount: &str, decimals: u8) -> (r: AmountReading)
    ensures
        r.view_outcome() == parse_token_amount_spec(amount@, decimals as nat),
{
    proof {
        reveal_strlit("Invalid amount format: ");
        reveal_strlit("Too many decimal places: ");
        reveal_strlit(" > ");
        reveal_strlit("Invalid fractional part: ");
        reveal_strlit("0");
    }
    let n = amount.unicode_len();
    let dot = find_dot(amount, 0);
    proof {
        assert(amount@.skip(0) =~= amount@);
    }
    let whole_text = amount.substring_char(0, dot);
    let whole = match u256_from_str(whole_text) {
        Ok(w) => w,
        Err(e) => {
            return AmountReading::Rejected(concat("Invalid amount format: ", e.as_str()));
        },
    };
    proof {
        lemma_pow10_fits(decimals as nat);
    }
    if decimals > 77 {
        return AmountReading::Overflow;
    }
    let multiplier = power_of_ten(decimals);
    let whole_amount = match u256_checked_mul(&whole, &multiplier) {
        Some(p) => p,
        None => {
            return AmountReading::Overflow;
        },
    };
    let fraction_text: &str = if dot < n {
        let end = find_dot(amount, dot + 1);
        proof {
            let rest = amount@.skip(dot + 1);
            assert(amount@.subrange(dot + 1, end as int) =~= rest.take(dot_index(rest) as int));
        }
        amount.substring_char(dot + 1, end)
    } else {
        "0"
    };
    proof {
        assert(fraction_text@ == match amount_fraction_text(amount@) {
            Some(f) => f,
            None => seq!['0'],
        });
        assert(whole_text@ == amount_whole_text(amount@));
    }
    let fraction_len = #[verifier::truncate] (fraction_text.len() as u32);
    if fraction_len > decimals as u32 {
        let mut m = "Too many decimal places: ".to_owned();
        m.append(u64_to_decimal(fraction_len as u64).as_str());
        m.append(" > ");
        m.append(u64_to_decimal(decimals as u64).as_str());
        proof {
            assert(m@ =~= "Too many decimal places: "@ + decimal_digits(fraction_len as nat) + " > "@
                + decimal_digits(decimals as nat));
        }
        return AmountReading::Rejected(m);
    }
    if fraction_text.is_empty() {
        return AmountReading::Value(whole_amount);
    }
    let fraction = match u256_from_str(fraction_text) {
        Ok(f) => f,
        Err(e) => {
            return AmountReading::Rejected(concat("Invalid fractional part: ", e.as_str()));
        },
    };
    proof {
        lemma_pow10_fits(decimals as nat);
        lemma_pow_monotone(10, (decimals - fraction_len) as nat, decimals as nat);
    }
    let fraction_multiplier = power_of_ten((decimals as u32 - fraction_len) as u8);
    let scaled = match u256_checked_mul(&fraction, &fraction_multiplier) {
        Some(p) => p,
        None => {
            return AmountReading::Overflow;
        },
    };
    match u256_checked_add(&whole_amount, &scaled) {
        Some(total) => AmountReading::Value(total),
        None => AmountReading::Overflow,
    }
}

/// Whether reading `amount` with `decimals` decimals overflows 256 bits
/// (where `parse_token_amount` must not be called).
pub fn token_amount_overflows(amount: &str, decimals: u8) -> (b: bool)
    ensures
        b <==> parse_token_amount_spec(amount@, decimals as nat) is None,
{
    match read_token_amount(amount, decimals) {
        AmountReading::Overflow => true,
        _ => false,
    }
}

/// Reads a user-typed amount into base units: the piece before the first `.`
/// is the whole part, the piece after it (up to any further `.`) the
/// fractional part.
pub fn parse_token_amount(amount: &str, decimals: u8) -> (r: Result<Uint256, String>)
    requires
        parse_token_amount_spec(amount@, decimals as nat) is Some,
    ensures
        parse_token_amount_spec(amount@, decimals as nat) == Some(
            match r {
                Ok(v) => Ok(v@),
                Err(m) => Err(m@),
            },
        ),
{
    match read_token_amount(amount, decimals) {
        AmountReading::Value(v) => Ok(v),
        AmountReading::Rejected(m) => Err(m),
        AmountReading::Overflow => Err(String::new()),
    }
}

} // verus!
