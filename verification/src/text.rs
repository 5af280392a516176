//! Decimal and hexadecimal text: what the digits of a number are, and how
//! strings are padded, trimmed and read back.
use vstd::prelude::*;

verus! {

/// The ASCII digit for `d < 10`.
pub open spec fn digit_char(d: nat) -> char {
    (d + 48) as char
}

/// Whether `c` is one of `0`..`9`.
pub open spec fn is_decimal_digit(c: char) -> bool {
    '0' <= c && c <= '9'
}

/// The value of a decimal digit.
pub open spec fn decimal_digit_value(c: char) -> nat {
    (c as int - 48) as nat
}

/// The shortest decimal representation of `n` ("0" for zero, no leading zeros).
pub open spec fn decimal_digits(n: nat) -> Seq<char>
    decreases n,
{
    if n < 10 {
        seq![digit_char(n)]
    } else {
        decimal_digits(n / 10).push(digit_char(n % 10))
    }
}

/// The number that a string of decimal digits denotes.
pub open spec fn decimal_value(s: Seq<char>) -> nat
    decreases s.len(),
{
    if s.len() == 0 {
        0
    } else {
        decimal_value(s.drop_last()) * 10 + decimal_digit_value(s.last())
    }
}

/// `k` copies of the character `0`.
pub open spec fn zeros(k: nat) -> Seq<char> {
    Seq::new(k, |i: int| '0')
}

/// `s` right-aligned in a field of `width` characters, filled with `0`
/// on the left (what `format!("{:0>width$}", s)` produces).
pub open spec fn pad_left_zeros(s: Seq<char>, width: nat) -> Seq<char> {
    if s.len() >= width {
        s
    } else {
        zeros((width - s.len()) as nat) + s
    }
}

/// `s` without its trailing `0` characters (what `trim_end_matches('0')`
/// produces).
pub open spec fn trim_trailing_zeros(s: Seq<char>) -> Seq<char>
    decreases s.len(),
{
    if s.len() > 0 && s.last() == '0' {
        trim_trailing_zeros(s.drop_last())
    } else {
        s
    }
}

/// Whether `c` is a hexadecimal digit, in either case.
pub open spec fn is_hex_digit(c: char) -> bool {
    ('0' <= c && c <= '9') || ('a' <= c && c <= 'f') || ('A' <= c && c <= 'F')
}

/// The value of a hexadecimal digit.
pub open spec fn hex_digit_value(c: char) -> nat {
    if '0' <= c && c <= '9' {
        (c as int - 48) as nat
    } else if 'a' <= c && c <= 'f' {
        (c as int - 87) as nat
    } else {
        (c as int - 55) as nat
    }
}

/// The number that a string of hexadecimal digits denotes (big-endian).
pub open spec fn hex_value(s: Seq<char>) -> nat
    decreases s.len(),
{
    if s.len() == 0 {
        0
    } else {
        hex_value(s.drop_last()) * 16 + hex_digit_value(s.last())
    }
}

/// Whether every character of `s` is a hexadecimal digit.
pub open spec fn all_hex_digits(s: Seq<char>) -> bool {
    forall|i: int| 0 <= i < s.len() ==> #[trigger] is_hex_digit(s[i])
}

/// `s` without one leading `0x`, if it starts with one.
pub open spec fn strip_hex_prefix(s: Seq<char>) -> Seq<char> {
    if s.len() >= 2 && s[0] == '0' && s[1] == 'x' {
        s.skip(2)
    } else {
        s
    }
}

/// Every character of `s` is a decimal digit.
pub open spec fn all_decimal_digits(s: Seq<char>) -> bool {
    forall|i: int| 0 <= i < s.len() ==> #[trigger] is_decimal_digit(s[i])
}

pub proof fn lemma_digit_char(d: nat)
    requires
        d < 10,
    ensures
        is_decimal_digit(digit_char(d)),
        decimal_digit_value(digit_char(d)) == d,
        digit_char(d) == '0' <==> d == 0,
{
}

/// The digits of `n` are decimal digits, at least one of them, and the first
/// is `0` only for `n == 0`.
pub proof fn lemma_decimal_digits_shape(n: nat)
    ensures
        all_decimal_digits(decimal_digits(n)),
        decimal_digits(n).len() >= 1,
        decimal_digits(n)[0] == '0' ==> n == 0,
        n > 0 ==> decimal_digits(n).last() != '0' || n % 10 == 0,
    decreases n,
{
    lemma_digit_char(n % 10);
    if n >= 10 {
        lemma_decimal_digits_shape(n / 10);
        assert(decimal_digits(n)[0] == decimal_digits(n / 10)[0]);
    }
}

/// Reading the digits of `n` back gives `n`.
pub proof fn lemma_decimal_value_of_digits(n: nat)
    ensures
        decimal_value(decimal_digits(n)) == n,
    decreases n,
{
    lemma_digit_char(n % 10);
    if n >= 10 {
        lemma_decimal_value_of_digits(n / 10);
        assert(decimal_digits(n).drop_last() =~= decimal_digits(n / 10));
        assert(decimal_digits(n).last() == digit_char(n % 10));
        assert(decimal_value(decimal_digits(n)) == decimal_value(decimal_digits(n / 10)) * 10 + n % 10);
    } else {
        assert(decimal_digits(n).drop_last() =~= Seq::<char>::empty());
        assert(decimal_value(Seq::<char>::empty()) == 0);
        assert(decimal_value(decimal_digits(n)) == decimal_value(decimal_digits(n).drop_last()) * 10
            + decimal_digit_value(decimal_digits(n).last()));
    }
}

/// `n` has at most `k` digits exactly when it is below `10^k` (`k >= 1`).
pub proof fn lemma_decimal_digits_len(n: nat, k: nat)
    requires
        k >= 1,
        n < crate::uint256::nat_pow(10, k),
    ensures
        decimal_digits(n).len() <= k,
    decreases n,
{
    if n >= 10 {
        assert(crate::uint256::nat_pow(10, k) == 10 * crate::uint256::nat_pow(10, (k - 1) as nat));
        if k == 1 {
            assert(crate::uint256::nat_pow(10, 0) == 1);
        } else {
            assert(n / 10 < crate::uint256::nat_pow(10, (k - 1) as nat));
            lemma_decimal_digits_len(n / 10, (k - 1) as nat);
        }
    }
}

/// Reading a concatenation: `value(a + b) == value(a) * 10^|b| + value(b)`.
pub proof fn lemma_decimal_value_concat(a: Seq<char>, b: Seq<char>)
    ensures
        decimal_value(a + b) == decimal_value(a) * crate::uint256::nat_pow(10, b.len()) + decimal_value(b),
    decreases b.len(),
{
    if b.len() == 0 {
        assert(a + b =~= a);
        assert(crate::uint256::nat_pow(10, 0) == 1);
        assert(decimal_value(b) == 0);
    } else {
        lemma_decimal_value_concat(a, b.drop_last());
        assert((a + b).drop_last() =~= a + b.drop_last());
        assert((a + b).last() == b.last());
        let va = decimal_value(a);
        let p = crate::uint256::nat_pow(10, (b.len() - 1) as nat);
        let vb = decimal_value(b.drop_last());
        let l = decimal_digit_value(b.last());
        assert(crate::uint256::nat_pow(10, b.len()) == 10 * p);
        assert((va * p + vb) * 10 + l == va * (10 * p) + (vb * 10 + l)) by (nonlinear_arith);
        assert(decimal_value(a + b) == decimal_value((a + b).drop_last()) * 10 + l);
        assert(decimal_value(b) == vb * 10 + l);
    }
}

/// Zeros read as zero.
pub proof fn lemma_decimal_value_zeros(k: nat)
    ensures
        decimal_value(zeros(k)) == 0,
        all_decimal_digits(zeros(k)),
    decreases k,
{
    if k > 0 {
        assert(zeros(k).drop_last() =~= zeros((k - 1) as nat));
        lemma_decimal_value_zeros((k - 1) as nat);
    }
}

/// Trimming keeps a prefix and drops only zeros.
pub proof fn lemma_trim_shape(s: Seq<char>)
    ensures
        trim_trailing_zeros(s).len() <= s.len(),
        trim_trailing_zeros(s) =~= s.take(trim_trailing_zeros(s).len() as int),
        s =~= trim_trailing_zeros(s) + zeros((s.len() - trim_trailing_zeros(s).len()) as nat),
        trim_trailing_zeros(s).len() > 0 ==> trim_trailing_zeros(s).last() != '0',
    decreases s.len(),
{
    if s.len() > 0 && s.last() == '0' {
        lemma_trim_shape(s.drop_last());
        let t = trim_trailing_zeros(s.drop_last());
        assert(s =~= s.drop_last().push('0'));
        assert(zeros((s.len() - t.len()) as nat) =~= zeros((s.len() - 1 - t.len()) as nat).push('0'));
    } else {
        assert(zeros(0) =~= Seq::<char>::empty());
    }
}

/// Trimming `a + b`: the zeros of `b` go first, and `a` is reached only when
/// nothing but zeros is left of `b`.
pub proof fn lemma_trim_concat(a: Seq<char>, b: Seq<char>)
    ensures
        trim_trailing_zeros(a + b) == if trim_trailing_zeros(b).len() == 0 {
            trim_trailing_zeros(a)
        } else {
            a + trim_trailing_zeros(b)
        },
    decreases b.len(),
{
    if b.len() == 0 {
        assert(a + b =~= a);
    } else {
        assert((a + b).drop_last() =~= a + b.drop_last());
        assert((a + b).last() == b.last());
        lemma_trim_concat(a, b.drop_last());
        if b.last() != '0' {
            assert(trim_trailing_zeros(b) == b);
        }
    }
}

/// A run of zeros followed by one digit reads as that digit, in base ten and
/// in base sixteen alike.
pub proof fn lemma_zeros_then_digit(k: nat, c: char)
    requires
        is_decimal_digit(c),
    ensures
        decimal_value(zeros(k) + seq![c]) == decimal_digit_value(c),
        hex_value(zeros(k) + seq![c]) == decimal_digit_value(c),
        all_hex_digits(zeros(k) + seq![c]),
    decreases k,
{
    let s = zeros(k) + seq![c];
    assert(s.drop_last() =~= zeros(k));
    lemma_decimal_value_zeros(k);
    lemma_hex_value_zeros(k);
    assert forall|i: int| 0 <= i < s.len() implies #[trigger] is_hex_digit(s[i]) by {
        if i < k {
            assert(s[i] == '0');
        } else {
            assert(s[i] == c);
        }
    }
}

proof fn lemma_hex_value_zeros(k: nat)
    ensures
        hex_value(zeros(k)) == 0,
    decreases k,
{
    if k > 0 {
        assert(zeros(k).drop_last() =~= zeros((k - 1) as nat));
        lemma_hex_value_zeros((k - 1) as nat);
    }
}

/// Decimal digits are ASCII characters.
pub proof fn lemma_digits_are_ascii(s: Seq<char>)
    requires
        all_decimal_digits(s),
    ensures
        vstd::utf8::is_ascii_chars(s),
{
    assert forall|i| 0 <= i < s.len() implies '\0' <= #[trigger] s[i] <= '\u{7f}' by {
        assert(is_decimal_digit(s[i]));
    }
}

/// `String::push`. Claimed: the character is appended at the end.
#[verifier::external_body]
pub(crate) fn push_char(s: &mut String, c: char)
    ensures
        final(s)@ == old(s)@.push(c),
{
    s.push(c);
}

/// `prefix` followed by `rest`.
pub fn concat(prefix: &str, rest: &str) -> (r: String)
    ensures
        r@ == prefix@ + rest@,
{
    let mut r = prefix.to_owned();
    r.append(rest);
    r
}

/// The character for a digit below ten.
pub fn digit_to_char(d: u64) -> (c: char)
    requires
        d < 10,
    ensures
        c == digit_char(d as nat),
{
    ((d as u8) + 48u8) as char
}

/// Appends the decimal digits of `n` to `s`.
pub fn push_decimal(s: &mut String, n: u64)
    ensures
        final(s)@ == old(s)@ + decimal_digits(n as nat),
    decreases n,
{
    if n >= 10 {
        push_decimal(s, n / 10);
    }
    push_char(s, digit_to_char(n % 10));
    proof {
        assert(s@ =~= old(s)@ + decimal_digits(n as nat));
    }
}

/// The decimal representation of `n`.
pub fn u64_to_decimal(n: u64) -> (s: String)
    ensures
        s@ == decimal_digits(n as nat),
{
    let mut s = String::new();
    push_decimal(&mut s, n);
    proof {
        assert(s@ =~= decimal_digits(n as nat));
    }
    s
}

} // verus!
