//! Unsigned 256-bit amounts of wei (token balances, gas budgets), held as four
//! little-endian 64-bit limbs so that contracts can speak of their numeric value.
use vstd::prelude::*;
use alloy::primitives::U256;
use alloy::primitives::utils::parse_ether;

verus! {

/// 2^64, the weight of one limb.
pub open spec fn limb_base() -> nat {
    0x1_0000_0000_0000_0000nat
}

/// 2^256: one more than the largest amount a `Wei` can hold.
pub open spec fn wei_modulus() -> nat {
    limb_base() * limb_base() * limb_base() * limb_base()
}

/// A 256-bit unsigned integer, least significant limb first
/// (the limb order of `alloy::primitives::U256`).
#[derive(Clone, Copy, Debug)]
pub struct Wei {
    l0: u64,
    l1: u64,
    l2: u64,
    l3: u64,
}

/// Numeric value of four little-endian limbs.
pub open spec fn limbs_value(l0: u64, l1: u64, l2: u64, l3: u64) -> nat {
    (l0 + limb_base() * (l1 + limb_base() * (l2 + limb_base() * l3))) as nat
}

impl View for Wei {
    type V = nat;

    closed spec fn view(&self) -> nat {
        limbs_value(self.l0, self.l1, self.l2, self.l3)
    }
}

/// Every amount lies below 2^256.
pub proof fn lemma_wei_bound(w: Wei)
    ensures
        w@ < wei_modulus(),
{
    lemma_limbs_value_bound(w.l0, w.l1, w.l2, w.l3);
}

/// Every value held by four limbs lies below 2^256.
proof fn lemma_limbs_value_bound(l0: u64, l1: u64, l2: u64, l3: u64)
    ensures
        limbs_value(l0, l1, l2, l3) < wei_modulus(),
{
    let b = limb_base() as int;
    let x3 = l3 as int;
    let x2 = l2 as int + b * x3;
    let x1 = l1 as int + b * x2;
    assert(x3 <= b - 1);
    assert(x2 <= b * b - 1) by (nonlinear_arith)
        requires
            x2 == l2 as int + b * x3,
            0 <= l2 < b,
            0 <= x3 <= b - 1,
    ;
    assert(x1 <= b * b * b - 1) by (nonlinear_arith)
        requires
            x1 == l1 as int + b * x2,
            0 <= l1 < b,
            0 <= x2 <= b * b - 1,
    ;
    assert(l0 as int + b * x1 <= b * b * b * b - 1) by (nonlinear_arith)
        requires
            0 <= l0 < b,
            0 <= x1 <= b * b * b - 1,
    ;
}

impl Wei {
    /// Zero wei.
    pub fn zero() -> (r: Wei)
        ensures
            r@ == 0,
    {
        Wei { l0: 0, l1: 0, l2: 0, l3: 0 }
    }

    /// The amount whose little-endian limbs are `limbs`.
    pub fn from_limbs(limbs: [u64; 4]) -> (r: Wei)
        ensures
            r@ == limbs_value(limbs@[0], limbs@[1], limbs@[2], limbs@[3]),
    {
        Wei { l0: limbs[0], l1: limbs[1], l2: limbs[2], l3: limbs[3] }
    }

    /// The little-endian limbs of this amount.
    pub fn limbs(&self) -> (r: [u64; 4])
        ensures
            limbs_value(r@[0], r@[1], r@[2], r@[3]) == self@,
    {
        [self.l0, self.l1, self.l2, self.l3]
    }

    /// The amount `x`.
    pub fn from_u64(x: u64) -> (r: Wei)
        ensures
            r@ == x,
    {
        Wei { l0: x, l1: 0, l2: 0, l3: 0 }
    }

    /// The amount `x`.
    pub fn from_u128(x: u128) -> (r: Wei)
        ensures
            r@ == x,
    {
        let lo: u64 = (x % 0x1_0000_0000_0000_0000u128) as u64;
        let hi: u64 = (x / 0x1_0000_0000_0000_0000u128) as u64;
        assert(x == lo + limb_base() * hi) by (nonlinear_arith)
            requires
                lo == x % 0x1_0000_0000_0000_0000u128,
                hi == x / 0x1_0000_0000_0000_0000u128,
                limb_base() == 0x1_0000_0000_0000_0000nat,
        ;
        Wei { l0: lo, l1: hi, l2: 0, l3: 0 }
    }

    /// Whether this amount is strictly less than `other`
    /// (the `<` of `U256`).
    pub fn lt(&self, other: &Wei) -> (r: bool)
        ensures
            r == (self@ < other@),
    {
        u256_lt(self, other)
    }

    /// Whether this amount is strictly greater than zero.
    pub fn is_positive(&self) -> (r: bool)
        ensures
            r == (self@ > 0),
    {
        Wei::zero().lt(self)
    }

    /// The product modulo 2^256 (the `*` of `U256`, which wraps).
    pub fn wrapping_mul(&self, other: &Wei) -> (r: Wei)
        ensures
            r@ == (self@ * other@) % wei_modulus(),
    {
        u256_wrapping_mul(self, other)
    }

    /// `self - other`, or zero where `other` is the larger.
    pub fn saturating_sub(&self, other: &Wei) -> (r: Wei)
        ensures
            r@ == (if self@ >= other@ { (self@ - other@) as nat } else { 0nat }),
    {
        u256_saturating_sub(self, other)
    }
}

/// `<` of `alloy::primitives::U256` (ruint's `PartialOrd::lt`), which compares
/// the numeric values of the two integers.
#[verifier::external_body]
fn u256_lt(a: &Wei, b: &Wei) -> (r: bool)
    ensures
        r == (a@ < b@),
{
    U256::from_limbs([a.l0, a.l1, a.l2, a.l3]) < U256::from_limbs([b.l0, b.l1, b.l2, b.l3])
}

/// `*` of `alloy::primitives::U256`: ruint implements it as `wrapping_mul`,
/// the product reduced modulo 2^256.
#[verifier::external_body]
fn u256_wrapping_mul(a: &Wei, b: &Wei) -> (r: Wei)
    ensures
        r@ == (a@ * b@) % wei_modulus(),
{
    let p = U256::from_limbs([a.l0, a.l1, a.l2, a.l3]) * U256::from_limbs([b.l0, b.l1, b.l2, b.l3]);
    let l = p.into_limbs();
    Wei { l0: l[0], l1: l[1], l2: l[2], l3: l[3] }
}

/// `saturating_sub` of `alloy::primitives::U256`: the difference, or zero
/// where it would go below zero.
#[verifier::external_body]
fn u256_saturating_sub(a: &Wei, b: &Wei) -> (r: Wei)
    ensures
        r@ == (if a@ >= b@ { (a@ - b@) as nat } else { 0nat }),
{
    let d = U256::from_limbs([a.l0, a.l1, a.l2, a.l3]).saturating_sub(U256::from_limbs([b.l0, b.l1, b.l2, b.l3]));
    let l = d.into_limbs();
    Wei { l0: l[0], l1: l[1], l2: l[2], l3: l[3] }
}

/// Whether `c` is one of the digits `0` to `9`.
pub open spec fn is_decimal_digit(c: char) -> bool {
    '0' <= c <= '9'
}

/// The number that the decimal digits `s` spell (zero for no digits).
pub open spec fn decimal_value(s: Seq<char>) -> nat
    decreases s.len(),
{
    if s.len() == 0 {
        0
    } else {
        decimal_value(s.drop_last()) * 10 + (s.last() as nat - '0' as nat) as nat
    }
}

/// 10^n.
pub open spec fn pow10(n: nat) -> nat
    decreases n,
{
    if n == 0 {
        1
    } else {
        10 * pow10((n - 1) as nat)
    }
}

/// The position of the first `.` in `s`, or `s.len()` where there is none.
pub open spec fn first_dot(s: Seq<char>) -> nat
    decreases s.len(),
{
    if s.len() == 0 {
        0
    } else if s[0] == '.' {
        0
    } else {
        1 + first_dot(s.drop_first())
    }
}

/// The digits of `s` before its first `.`.
pub open spec fn whole_part(s: Seq<char>) -> Seq<char> {
    s.subrange(0, first_dot(s) as int)
}

/// The digits of `s` after its first `.` (none where there is no `.`).
pub open spec fn fraction_part(s: Seq<char>) -> Seq<char> {
    if first_dot(s) < s.len() {
        s.subrange(first_dot(s) + 1int, s.len() as int)
    } else {
        Seq::empty()
    }
}

/// Whether `s` is a plain amount of ether: one or more digits, then
/// optionally a `.` and at most eighteen more digits.
pub open spec fn is_plain_ether_text(s: Seq<char>) -> bool {
    &&& whole_part(s).len() > 0
    &&& forall|i: int| 0 <= i < whole_part(s).len() ==> is_decimal_digit(#[trigger] whole_part(s)[i])
    &&& forall|i: int|
        0 <= i < fraction_part(s).len() ==> is_decimal_digit(#[trigger] fraction_part(s)[i])
    &&& fraction_part(s).len() <= 18
}

/// The wei that a plain amount of ether stands for: its digits read as one
/// number, times 10 to the eighteen less the digits after the point.
pub open spec fn plain_ether_wei(s: Seq<char>) -> nat {
    decimal_value(whole_part(s) + fraction_part(s)) * pow10((18 - fraction_part(s).len()) as nat)
}

/// The number of wei that the decimal ether amount `eth` stands for, as
/// `alloy::primitives::utils::parse_ether` computes it, or `None` where it
/// refuses the text.
pub uninterp spec fn ether_in_wei(eth: Seq<char>) -> Option<nat>;

/// `alloy::primitives::utils::parse_ether`: reads a decimal amount of ether
/// and gives it in wei (10^18 wei per ether). Its result is named; for a
/// plain amount (digits, then optionally a point and at most eighteen
/// digits) it is stated: the amount in wei where that is below 2^256,
/// an error otherwise. Signed amounts, `_` separators and more than eighteen
/// decimals are left to the name. ASCII text is required: the function slices
/// the text by bytes and can panic on others.
#[verifier::external_body]
fn parse_ether_wei(eth: &str) -> (r: Option<Wei>)
    requires
        eth.is_ascii(),
    ensures
        match r {
            Some(w) => ether_in_wei(eth@) == Some(w@),
            None => ether_in_wei(eth@) is None,
        },
        is_plain_ether_text(eth@) ==> (r is Some <==> plain_ether_wei(eth@) < wei_modulus()),
        is_plain_ether_text(eth@) ==> (r matches Some(w) ==> w@ == plain_ether_wei(eth@)),
{
    match parse_ether(eth) {
        Ok(v) => {
            let l = v.into_limbs();
            Some(Wei { l0: l[0], l1: l[1], l2: l[2], l3: l[3] })
        },
        Err(_) => None,
    }
}

/// The smallest top-up worth sending: 0.00000001 ether, 10^10 wei, read by
/// `parse_ether`.
pub fn min_top_up() -> (r: Wei)
    ensures
        r@ == 10_000_000_000,
        ether_in_wei("0.00000001"@) == Some(r@),
{
    let text = "0.00000001";
    proof {
        reveal_strlit("0.00000001");
        assert(text@ =~= seq!['0', '.', '0', '0', '0', '0', '0', '0', '0', '1']);
        lemma_min_top_up_text(text@);
    }
    match parse_ether_wei(text) {
        Some(w) => w,
        None => {
            assert(false);
            Wei::zero()
        },
    }
}

/// The text `0.00000001` is a plain amount of 10^10 wei.
proof fn lemma_min_top_up_text(s: Seq<char>)
    requires
        s == seq!['0', '.', '0', '0', '0', '0', '0', '0', '0', '1'],
    ensures
        is_plain_ether_text(s),
        plain_ether_wei(s) == 10_000_000_000,
        10_000_000_000 < wei_modulus(),
{
    assert(first_dot(s) == 1) by {
        reveal_with_fuel(first_dot, 2);
        assert(s.drop_first()[0] == '.');
    }
    let w = whole_part(s);
    let f = fraction_part(s);
    assert(w =~= seq!['0']);
    assert(f =~= seq!['0', '0', '0', '0', '0', '0', '0', '1']);
    let d = w + f;
    assert(d =~= seq!['0', '0', '0', '0', '0', '0', '0', '0', '1']);
    assert(decimal_value(d) == 1) by {
        reveal_with_fuel(decimal_value, 10);
        assert(d.drop_last() =~= seq!['0', '0', '0', '0', '0', '0', '0', '0']);
        assert(d.drop_last().drop_last() =~= seq!['0', '0', '0', '0', '0', '0', '0']);
        assert(d.drop_last().drop_last().drop_last() =~= seq!['0', '0', '0', '0', '0', '0']);
        assert(d.drop_last().drop_last().drop_last().drop_last() =~= seq!['0', '0', '0', '0', '0']);
        assert(d.drop_last().drop_last().drop_last().drop_last().drop_last() =~= seq!['0', '0', '0', '0']);
        assert(d.drop_last().drop_last().drop_last().drop_last().drop_last().drop_last() =~= seq!['0', '0', '0']);
        assert(d.drop_last().drop_last().drop_last().drop_last().drop_last().drop_last().drop_last() =~= seq!['0', '0']);
        assert(d.drop_last().drop_last().drop_last().drop_last().drop_last().drop_last().drop_last().drop_last() =~= seq!['0']);
        assert(d.drop_last().drop_last().drop_last().drop_last().drop_last().drop_last().drop_last().drop_last().drop_last() =~= Seq::<char>::empty());
    }
    assert(pow10(10) == 10_000_000_000) by {
        reveal_with_fuel(pow10, 11);
    }
    assert(10_000_000_000 < wei_modulus());
}

} // verus!
