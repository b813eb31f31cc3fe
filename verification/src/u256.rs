//! 256-bit unsigned operands (`LdU256`) and their decimal numerals.
use crate::text::{
    all_ascii_digits, dec_digits, dec_fits, dec_value, digit_char, digit_str, is_ascii_digit,
    lemma_dec_value_prefix, push_dec, u128_bound,
};
use vstd::prelude::*;

verus! {

/// An unsigned 256-bit number, `hi * 2^128 + lo`.
#[derive(Clone, Copy, Debug, PartialEq, Eq)]
pub struct U256Def {
    pub hi: u128,
    pub lo: u128,
}

pub open spec fn u256_bound() -> nat {
    u128_bound() * u128_bound()
}

pub open spec fn u256_value(x: U256Def) -> nat {
    x.hi as nat * u128_bound() + x.lo as nat
}

/// The 256-bit number with the value `n` (for `n < 2^256`).
pub open spec fn u256_of_value(n: nat) -> U256Def {
    U256Def { hi: (n / u128_bound()) as u128, lo: (n % u128_bound()) as u128 }
}

pub proof fn lemma_u256_value(x: U256Def)
    ensures
        u256_value(x) < u256_bound(),
        u256_of_value(u256_value(x)) == x,
{
    let b = u128_bound();
    let n = u256_value(x);
    assert((x.hi as nat) * b + (x.lo as nat) < b * b) by (nonlinear_arith)
        requires
            x.hi < b,
            x.lo < b,
    ;
    vstd::arithmetic::div_mod::lemma_fundamental_div_mod_converse(
        n as int,
        b as int,
        x.hi as int,
        x.lo as int,
    );
}

impl U256Def {
    /// The 256-bit number with the value of `v`.
    pub fn from_u128(v: u128) -> (r: U256Def)
        ensures
            r.hi == 0 && r.lo == v,
            u256_value(r) == v,
    {
        U256Def { hi: 0, lo: v }
    }
}

/// `x * 10 + d`, as a carry above 2^128 and the 128 bits below.
fn mul10_add(x: u128, d: u128) -> (r: (u128, u128))
    requires
        d < 10,
    ensures
        r.0 < 10,
        r.0 as nat * u128_bound() + r.1 as nat == x as nat * 10 + d as nat,
{
    let w: u128 = 0x1_0000_0000_0000_0000;
    let x0 = x % w;
    let x1 = x / w;
    assert(x1 < w) by (nonlinear_arith)
        requires
            x1 == x / w,
            w == 0x1_0000_0000_0000_0000u128,
            x < w * w,
    ;
    let t0 = x0 * 10 + d;
    let r0 = t0 % w;
    let c0 = t0 / w;
    let t1 = x1 * 10 + c0;
    let r1 = t1 % w;
    let c1 = t1 / w;
    assert(c1 < 10);
    let low = r1 * w + r0;
    assert(c1 as nat * u128_bound() + low as nat == x as nat * 10 + d as nat) by (nonlinear_arith)
        requires
            w == 0x1_0000_0000_0000_0000u128,
            u128_bound() == w as nat * w as nat,
            x == x1 * w + x0,
            t0 == x0 * 10 + d,
            t0 == c0 * w + r0,
            t1 == x1 * 10 + c0,
            t1 == c1 * w + r1,
            low == r1 * w + r0,
    ;
    (c1, low)
}

/// `(r * 2^128 + lo) / 10` and its remainder, for `r < 10`.
fn divmod10_wide(r: u128, lo: u128) -> (qr: (u128, u128))
    requires
        r < 10,
    ensures
        qr.1 < 10,
        qr.0 as nat * 10 + qr.1 as nat == r as nat * u128_bound() + lo as nat,
{
    let w: u128 = 0x1_0000_0000_0000_0000;
    let a = lo / w;
    let b = lo % w;
    assert(a < w) by (nonlinear_arith)
        requires
            a == lo / w,
            w == 0x1_0000_0000_0000_0000u128,
            lo < w * w,
    ;
    let t = r * w + a;
    let qa = t / 10;
    let ra = t % 10;
    assert(qa < w);
    let t2 = ra * w + b;
    let qb = t2 / 10;
    let rb = t2 % 10;
    assert(qb < w);
    let q = qa * w + qb;
    assert(q as nat * 10 + rb as nat == r as nat * u128_bound() + lo as nat) by (nonlinear_arith)
        requires
            w == 0x1_0000_0000_0000_0000u128,
            u128_bound() == w as nat * w as nat,
            lo == a * w + b,
            t == r * w + a,
            t == qa * 10 + ra,
            t2 == ra * w + b,
            t2 == qb * 10 + rb,
            q == qa * w + qb,
    ;
    (q, rb)
}

/// The value of the digits `cs[a..b)` when they are ASCII digits below 2^256,
/// and `None` otherwise.
pub fn parse_dec_u256(cs: &Vec<char>, a: usize, b: usize) -> (r: Option<U256Def>)
    requires
        a <= b <= cs.len(),
    ensures
        r matches Some(v) ==> dec_fits(cs@.subrange(a as int, b as int), u256_bound()) && u256_value(v)
            == dec_value(cs@.subrange(a as int, b as int)),
        r is None ==> !dec_fits(cs@.subrange(a as int, b as int), u256_bound()),
{
    let ghost sub = cs@.subrange(a as int, b as int);
    let mut v = U256Def { hi: 0, lo: 0 };
    let mut i = a;
    while i < b
        invariant
            a <= i <= b <= cs.len(),
            sub == cs@.subrange(a as int, b as int),
            all_ascii_digits(cs@.subrange(a as int, i as int)),
            u256_value(v) == dec_value(cs@.subrange(a as int, i as int)),
        decreases b - i,
    {
        let c = cs[i];
        let u = c as u32;
        let ghost pre = cs@.subrange(a as int, i as int);
        let ghost next = cs@.subrange(a as int, i + 1);
        assert(next.drop_last() =~= pre);
        assert(sub.take(i + 1 - a) =~= next);
        if !(48 <= u && u <= 57) {
            assert(!is_ascii_digit(sub[i - a]));
            return None;
        }
        let d = (u - 48) as u128;
        let (carry, low) = mul10_add(v.lo, d);
        let ghost old_v = v;
        match v.hi.checked_mul(10) {
            None => {
                proof {
                    assert(dec_value(next) >= u256_bound()) by (nonlinear_arith)
                        requires
                            dec_value(next) == u256_value(old_v) * 10 + d,
                            u256_value(old_v) == old_v.hi * u128_bound() + old_v.lo,
                            old_v.hi * 10 >= u128_bound(),
                            u256_bound() == u128_bound() * u128_bound(),
                    ;
                    if all_ascii_digits(sub) {
                        lemma_dec_value_prefix(sub, i + 1 - a);
                    }
                }
                return None;
            },
            Some(h) => match h.checked_add(carry) {
                None => {
                    proof {
                        assert(dec_value(next) >= u256_bound()) by (nonlinear_arith)
                            requires
                                dec_value(next) == u256_value(old_v) * 10 + d,
                                u256_value(old_v) == old_v.hi * u128_bound() + old_v.lo,
                                carry * u128_bound() + low == old_v.lo * 10 + d,
                                old_v.hi * 10 + carry >= u128_bound(),
                                u256_bound() == u128_bound() * u128_bound(),
                        ;
                        if all_ascii_digits(sub) {
                            lemma_dec_value_prefix(sub, i + 1 - a);
                        }
                    }
                    return None;
                },
                Some(h2) => {
                    v = U256Def { hi: h2, lo: low };
                    assert(u256_value(v) == u256_value(old_v) * 10 + d) by (nonlinear_arith)
                        requires
                            u256_value(v) == h2 * u128_bound() + low,
                            h2 == old_v.hi * 10 + carry,
                            u256_value(old_v) == old_v.hi * u128_bound() + old_v.lo,
                            carry * u128_bound() + low == old_v.lo * 10 + d,
                    ;
                },
            },
        }
        i = i + 1;
        assert(all_ascii_digits(cs@.subrange(a as int, i as int))) by {
            assert forall|t: int| 0 <= t < next.len() implies is_ascii_digit(#[trigger] next[t]) by {
                if t < pre.len() {
                    assert(next[t] == pre[t]);
                }
            }
        }
    }
    assert(sub =~= cs@.subrange(a as int, i as int));
    proof {
        lemma_u256_value(v);
    }
    Some(v)
}

/// Appends the decimal numeral of `v`.
pub fn push_dec_u256(out: &mut String, v: U256Def)
    ensures
        final(out)@ == old(out)@ + dec_digits(u256_value(v)),
    decreases u256_value(v),
{
    if v.hi == 0 {
        push_dec(out, v.lo);
    } else {
        let q_hi = v.hi / 10;
        let rem = v.hi % 10;
        let (q_lo, r) = divmod10_wide(rem, v.lo);
        let q = U256Def { hi: q_hi, lo: q_lo };
        let ghost n = u256_value(v);
        proof {
            assert(u256_value(q) * 10 + r == n) by (nonlinear_arith)
                requires
                    u256_value(q) == q_hi * u128_bound() + q_lo,
                    n == v.hi * u128_bound() + v.lo,
                    v.hi == q_hi * 10 + rem,
                    q_lo * 10 + r == rem * u128_bound() + v.lo,
            ;
            vstd::arithmetic::div_mod::lemma_fundamental_div_mod_converse(
                n as int,
                10,
                u256_value(q) as int,
                r as int,
            );
            assert(n >= 10) by (nonlinear_arith)
                requires
                    n == v.hi * u128_bound() + v.lo,
                    v.hi >= 1,
                    u128_bound() >= 10,
            ;
        }
        push_dec_u256(out, q);
        out.append(digit_str(r));
        assert(final(out)@ =~= old(out)@ + dec_digits(n));
    }
}

} // verus!
