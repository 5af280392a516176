//! Unsigned 256-bit amounts, held as four little-endian 64-bit limbs, the same
//! layout that `ethers_core::types::U256` uses.
use vstd::prelude::*;
use ethers_core::types::U256;
use crate::text::{all_hex_digits, decimal_digits, hex_value, strip_hex_prefix};

verus! {

/// 2^64.
pub open spec fn limb_base() -> int {
    0x1_0000_0000_0000_0000int
}

/// 2^256, the first value that does not fit in 256 bits.
pub open spec fn u256_limit() -> int {
    0x1_0000_0000_0000_0000_0000_0000_0000_0000_0000_0000_0000_0000_0000_0000_0000_0000int
}

/// `b` raised to the power `e`.
pub open spec fn nat_pow(b: nat, e: nat) -> nat
    decreases e,
{
    if e == 0 {
        1
    } else {
        b * nat_pow(b, (e - 1) as nat)
    }
}

/// An unsigned 256-bit integer.
#[derive(Clone, Copy, Debug, PartialEq, Eq)]
pub struct Uint256 {
    /// Least significant 64 bits.
    pub limb0: u64,
    pub limb1: u64,
    pub limb2: u64,
    /// Most significant 64 bits.
    pub limb3: u64,
}

impl Uint256 {
    /// The number this value stands for.
    pub open spec fn value(self) -> nat {
        (self.limb0 + self.limb1 * limb_base() + self.limb2 * (limb_base()
            * limb_base()) + self.limb3 * (limb_base() * limb_base() * limb_base())) as nat
    }

    pub fn zero() -> (r: Self)
        ensures
            r.value() == 0,
    {
        Uint256 { limb0: 0, limb1: 0, limb2: 0, limb3: 0 }
    }

    pub fn from_u64(x: u64) -> (r: Self)
        ensures
            r.value() == x,
    {
        Uint256 { limb0: x, limb1: 0, limb2: 0, limb3: 0 }
    }

    pub fn is_zero(&self) -> (b: bool)
        ensures
            b <==> self.value() == 0,
    {
        proof {
            let b = limb_base();
            let (l0, l1, l2, l3) = (self.limb0 as int, self.limb1 as int, self.limb2 as int, self.limb3 as int);
            assert((l0 + l1 * b + l2 * (b * b) + l3 * (b * b * b) == 0) <==> (l0 == 0 && l1 == 0 && l2 == 0 && l3 == 0))
                by (nonlinear_arith)
                requires
                    l0 >= 0,
                    l1 >= 0,
                    l2 >= 0,
                    l3 >= 0,
                    b > 0,
            ;
        }
        self.limb0 == 0 && self.limb1 == 0 && self.limb2 == 0 && self.limb3 == 0
    }
}

impl View for Uint256 {
    type V = nat;

    open spec fn view(&self) -> nat {
        self.value()
    }
}

/// Every value of the type is below 2^256.
pub proof fn lemma_value_bound(x: Uint256)
    ensures
        x@ < u256_limit(),
{
    let b = limb_base();
    let l0 = x.limb0 as int;
    let l1 = x.limb1 as int;
    let l2 = x.limb2 as int;
    let l3 = x.limb3 as int;
    assert(l0 + l1 * b + l2 * (b * b) + l3 * (b * b * b) < b * b * b * b) by (nonlinear_arith)
        requires
            0 <= l0 < b,
            0 <= l1 < b,
            0 <= l2 < b,
            0 <= l3 < b,
            b > 0,
    ;
}

/// Quotient of `U256` division (`Div` of `ethers_core::types::U256`).
/// Claimed: the result is the floor of `a / b`. The call panics on a zero
/// divisor, which `requires` rules out.
#[verifier::external_body]
pub(crate) fn u256_div(a: &Uint256, b: &Uint256) -> (q: Uint256)
    requires
        b@ != 0,
    ensures
        q@ == a@ / b@,
{
    let q = (U256([a.limb0, a.limb1, a.limb2, a.limb3]) / U256([b.limb0, b.limb1, b.limb2, b.limb3])).0;
    Uint256 { limb0: q[0], limb1: q[1], limb2: q[2], limb3: q[3] }
}

/// Remainder of `U256` division (`Rem` of `ethers_core::types::U256`).
/// Claimed: the result is `a mod b`. The call panics on a zero divisor.
#[verifier::external_body]
pub(crate) fn u256_rem(a: &Uint256, b: &Uint256) -> (r: Uint256)
    requires
        b@ != 0,
    ensures
        r@ == a@ % b@,
{
    let r = (U256([a.limb0, a.limb1, a.limb2, a.limb3]) % U256([b.limb0, b.limb1, b.limb2, b.limb3])).0;
    Uint256 { limb0: r[0], limb1: r[1], limb2: r[2], limb3: r[3] }
}

/// `U256::checked_mul`. Claimed: `None` exactly when the product does not fit
/// in 256 bits, otherwise the product.
#[verifier::external_body]
pub(crate) fn u256_checked_mul(a: &Uint256, b: &Uint256) -> (r: Option<Uint256>)
    ensures
        r is None <==> a@ * b@ >= u256_limit(),
        r matches Some(p) ==> p@ == a@ * b@,
{
    match U256([a.limb0, a.limb1, a.limb2, a.limb3]).checked_mul(U256([b.limb0, b.limb1, b.limb2, b.limb3])) {
        Some(p) => Some(Uint256 { limb0: p.0[0], limb1: p.0[1], limb2: p.0[2], limb3: p.0[3] }),
        None => None,
    }
}

/// `U256::checked_add`. Claimed: `None` exactly when the sum does not fit in
/// 256 bits, otherwise the sum.
#[verifier::external_body]
pub(crate) fn u256_checked_add(a: &Uint256, b: &Uint256) -> (r: Option<Uint256>)
    ensures
        r is None <==> a@ + b@ >= u256_limit(),
        r matches Some(s) ==> s@ == a@ + b@,
{
    match U256([a.limb0, a.limb1, a.limb2, a.limb3]).checked_add(U256([b.limb0, b.limb1, b.limb2, b.limb3])) {
        Some(s) => Some(Uint256 { limb0: s.0[0], limb1: s.0[1], limb2: s.0[2], limb3: s.0[3] }),
        None => None,
    }
}

/// `U256::checked_pow`. Claimed: `None` exactly when `base^exp` does not fit
/// in 256 bits, otherwise `base^exp`. (The square-and-multiply loop in `uint`
/// only forms intermediate products that divide the final power, so its
/// overflow flag is set exactly when the power itself overflows.)
#[verifier::external_body]
pub(crate) fn u256_checked_pow(base: &Uint256, exp: &Uint256) -> (r: Option<Uint256>)
    ensures
        r is None <==> nat_pow(base@, exp@) >= u256_limit(),
        r matches Some(p) ==> p@ == nat_pow(base@, exp@),
{
    match U256([base.limb0, base.limb1, base.limb2, base.limb3]).checked_pow(U256([exp.limb0, exp.limb1, exp.limb2, exp.limb3])) {
        Some(p) => Some(Uint256 { limb0: p.0[0], limb1: p.0[1], limb2: p.0[2], limb3: p.0[3] }),
        None => None,
    }
}

/// `Display` of `U256` (what `to_string` gives). Claimed: the shortest
/// decimal representation of the value.
#[verifier::external_body]
pub(crate) fn u256_to_decimal(a: &Uint256) -> (s: String)
    ensures
        s@ == decimal_digits(a@),
{
    U256([a.limb0, a.limb1, a.limb2, a.limb3]).to_string()
}

/// What `U256::from_str` accepts and yields: after one optional `0x`, at most
/// 64 hexadecimal digits (none at all reads as zero), read big-endian.
pub open spec fn u256_from_hex_str(s: Seq<char>) -> Option<nat> {
    let digits = strip_hex_prefix(s);
    if digits.len() <= 64 && all_hex_digits(digits) {
        Some(hex_value(digits))
    } else {
        None
    }
}

/// The text (`Display`) of the error that `U256::from_str` reports for `s`.
pub uninterp spec fn u256_parse_error_text(s: Seq<char>) -> Seq<char>;

/// `U256::from_str` (`s.parse::<U256>()`), which reads hexadecimal. Claimed:
/// it succeeds exactly on the strings `u256_from_hex_str` accepts, with that
/// value; on failure the error's text is named by `u256_parse_error_text`.
#[verifier::external_body]
pub(crate) fn u256_from_str(s: &str) -> (r: Result<Uint256, String>)
    ensures
        r is Ok <==> u256_from_hex_str(s@) is Some,
        r matches Ok(v) ==> u256_from_hex_str(s@) == Some(v@),
        r matches Err(m) ==> m@ == u256_parse_error_text(s@),
{
    match s.parse::<U256>() {
        Ok(v) => Ok(Uint256 { limb0: v.0[0], limb1: v.0[1], limb2: v.0[2], limb3: v.0[3] }),
        Err(e) => Err(e.to_string()),
    }
}

/// `10^d` fits in 256 bits exactly when `d <= 77`.
pub proof fn lemma_pow10_fits(d: nat)
    ensures
        nat_pow(10, d) < u256_limit() <==> d <= 77,
        nat_pow(10, d) > 0,
{
    lemma_pow_positive(10, d);
    assert(nat_pow(10, 2) == 100) by {
        reveal_with_fuel(nat_pow, 3);
    }
    assert(nat_pow(10, 1) == 10) by {
        reveal_with_fuel(nat_pow, 2);
    }
    lemma_pow_add(10, 2, 2);
    assert(nat_pow(10, 4) == 10000nat);
    lemma_pow_add(10, 4, 4);
    assert(nat_pow(10, 8) == 100000000nat);
    lemma_pow_add(10, 8, 8);
    assert(nat_pow(10, 16) == 10000000000000000nat);
    lemma_pow_add(10, 16, 16);
    assert(nat_pow(10, 32) == 100000000000000000000000000000000nat);
    lemma_pow_add(10, 32, 32);
    assert(nat_pow(10, 64) == 10000000000000000000000000000000000000000000000000000000000000000nat);
    lemma_pow_add(10, 64, 8);
    assert(nat_pow(10, 72) == 1000000000000000000000000000000000000000000000000000000000000000000000000nat);
    lemma_pow_add(10, 72, 4);
    assert(nat_pow(10, 76) == 10000000000000000000000000000000000000000000000000000000000000000000000000000nat);
    lemma_pow_add(10, 76, 1);
    assert(nat_pow(10, 77) == 100000000000000000000000000000000000000000000000000000000000000000000000000000nat);
    if d <= 77 {
        lemma_pow_monotone(10, d, 77);
    } else {
        lemma_pow_monotone(10, 78, d);
        assert(nat_pow(10, 78) == 10 * nat_pow(10, 77));
        assert(nat_pow(10, 78) == 1000000000000000000000000000000000000000000000000000000000000000000000000000000nat);
        assert(nat_pow(10, 78) >= u256_limit());
    }
}

pub proof fn lemma_pow_add(b: nat, e1: nat, e2: nat)
    ensures
        nat_pow(b, e1 + e2) == nat_pow(b, e1) * nat_pow(b, e2),
    decreases e2,
{
    if e2 == 0 {
        assert(nat_pow(b, e2) == 1);
        assert(e1 + e2 == e1);
    } else {
        lemma_pow_add(b, e1, (e2 - 1) as nat);
        assert(nat_pow(b, e2) == b * nat_pow(b, (e2 - 1) as nat));
        assert(nat_pow(b, e1 + e2) == b * nat_pow(b, (e1 + e2 - 1) as nat));
        assert(b * (nat_pow(b, e1) * nat_pow(b, (e2 - 1) as nat)) == nat_pow(b, e1) * (b * nat_pow(b, (e2 - 1) as nat))) by (nonlinear_arith);
    }
}

pub proof fn lemma_pow_positive(b: nat, e: nat)
    requires
        b > 0,
    ensures
        nat_pow(b, e) > 0,
    decreases e,
{
    if e > 0 {
        lemma_pow_positive(b, (e - 1) as nat);
        assert(b * nat_pow(b, (e - 1) as nat) > 0) by (nonlinear_arith)
            requires b > 0, nat_pow(b, (e - 1) as nat) > 0;
    }
}

pub proof fn lemma_pow_monotone(b: nat, e1: nat, e2: nat)
    requires
        b > 0,
        e1 <= e2,
    ensures
        nat_pow(b, e1) <= nat_pow(b, e2),
    decreases e2,
{
    if e1 < e2 {
        lemma_pow_monotone(b, e1, (e2 - 1) as nat);
        lemma_pow_positive(b, (e2 - 1) as nat);
        assert(nat_pow(b, (e2 - 1) as nat) <= b * nat_pow(b, (e2 - 1) as nat)) by (nonlinear_arith)
            requires b > 0, nat_pow(b, (e2 - 1) as nat) > 0;
    }
}

} // verus!
