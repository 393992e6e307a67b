//! Greatest common divisors, used to bring the parts of a mixture to lowest terms.

use vstd::prelude::*;

use gcd::Gcd;

verus! {

/// The product of `d` and `k`.
pub open spec fn times(d: int, k: int) -> int {
    d * k
}

/// `d` divides `a`.
pub open spec fn divides(d: int, a: int) -> bool {
    exists|k: int| a == #[trigger] times(d, k)
}

/// The greatest common divisor of `a` and `b`, by Euclid's algorithm; it is `0` only when
/// both are `0`.
pub open spec fn spec_gcd(a: nat, b: nat) -> nat
    decreases b,
{
    if b == 0 {
        a
    } else {
        spec_gcd(b, a % b)
    }
}

/// The greatest common divisor of all the values of `s` (`0` for none).
pub open spec fn gcd_all(s: Seq<u64>) -> nat
    decreases s.len(),
{
    if s.len() == 0 {
        0
    } else {
        spec_gcd(gcd_all(s.drop_last()), s.last() as nat)
    }
}

/// The greatest common divisor of `a` and `b`, computed by the `gcd` crate (its
/// `Gcd::gcd` on `u64`, which documents its result as the greatest common divisor, with
/// `gcd(a, 0) == a` and `gcd(0, b) == b`).
#[verifier::external_body]
fn gcd_u64(a: u64, b: u64) -> (r: u64)
    ensures
        r == spec_gcd(a as nat, b as nat),
{
    a.gcd(b)
}

/// Euclid's result divides both arguments, is positive unless both are zero, and is no
/// larger than a positive argument.
pub proof fn lemma_gcd_divides(a: nat, b: nat)
    ensures
        divides(spec_gcd(a, b) as int, a as int),
        divides(spec_gcd(a, b) as int, b as int),
        (a > 0 || b > 0) ==> spec_gcd(a, b) > 0,
    decreases b,
{
    if b == 0 {
        assert(a as int == times(a as int, 1));
        assert(0 == times(a as int, 0));
    } else {
        let r = a % b;
        lemma_gcd_divides(b, r);
        let g = spec_gcd(b, r) as int;
        let k1 = choose|k: int| b as int == times(g, k);
        let k2 = choose|k: int| r as int == times(g, k);
        let q = (a / b) as int;
        vstd::arithmetic::div_mod::lemma_fundamental_div_mod(a as int, b as int);
        assert(a as int == g * (k1 * q + k2)) by (nonlinear_arith)
            requires
                a as int == (b as int) * q + (r as int),
                b as int == g * k1,
                r as int == g * k2,
        ;
        assert(a as int == times(g, k1 * q + k2));
    }
}

/// Every common divisor of `a` and `b` divides their greatest common divisor.
pub proof fn lemma_common_divisor_divides_gcd(d: int, a: nat, b: nat)
    requires
        divides(d, a as int),
        divides(d, b as int),
    ensures
        divides(d, spec_gcd(a, b) as int),
    decreases b,
{
    if b > 0 {
        let r = a % b;
        let ka = choose|k: int| a as int == times(d, k);
        let kb = choose|k: int| b as int == times(d, k);
        let q = (a / b) as int;
        vstd::arithmetic::div_mod::lemma_fundamental_div_mod(a as int, b as int);
        assert(r as int == d * (ka - kb * q)) by (nonlinear_arith)
            requires
                a as int == (b as int) * q + (r as int),
                a as int == d * ka,
                b as int == d * kb,
        ;
        assert(r as int == times(d, ka - kb * q));
        lemma_common_divisor_divides_gcd(d, b, r);
    }
}

/// `gcd_all` divides every value, is positive when some value is, and every common divisor of
/// all the values divides it.
pub proof fn lemma_gcd_all(s: Seq<u64>)
    ensures
        forall|i: int| 0 <= i < s.len() ==> divides(gcd_all(s) as int, #[trigger] s[i] as int),
        (exists|i: int| 0 <= i < s.len() && #[trigger] s[i] > 0) ==> gcd_all(s) > 0,
        forall|d: int|
            (forall|i: int| 0 <= i < s.len() ==> divides(d, #[trigger] s[i] as int)) ==> divides(
                d,
                #[trigger] gcd_all(s) as int,
            ),
    decreases s.len(),
{
    if s.len() == 0 {
        assert forall|d: int| (forall|i: int| 0 <= i < s.len() ==> divides(d, #[trigger] s[i] as int)) implies divides(
            d,
            #[trigger] gcd_all(s) as int,
        ) by {
            assert(0 == times(d, 0));
        }
    } else {
        let t = s.drop_last();
        lemma_gcd_all(t);
        let gt = gcd_all(t);
        let x = s.last() as nat;
        let g = gcd_all(s);
        lemma_gcd_divides(gt, x);
        assert(g == spec_gcd(gt, x));
        assert forall|i: int| 0 <= i < s.len() implies divides(g as int, #[trigger] s[i] as int) by {
            if i < s.len() - 1 {
                assert(s[i] == t[i]);
                assert(divides(gt as int, t[i] as int));
                let k1 = choose|k: int| gt as int == times(g as int, k);
                let k2 = choose|k: int| t[i] as int == times(gt as int, k);
                assert(t[i] as int == (g as int) * (k1 * k2)) by (nonlinear_arith)
                    requires
                        gt as int == (g as int) * k1,
                        t[i] as int == (gt as int) * k2,
                ;
                assert(t[i] as int == times(g as int, k1 * k2));
            }
        }
        if exists|i: int| 0 <= i < s.len() && #[trigger] s[i] > 0 {
            let i = choose|i: int| 0 <= i < s.len() && #[trigger] s[i] > 0;
            if i < s.len() - 1 {
                assert(t[i] > 0);
            }
        }
        assert forall|d: int|
            (forall|i: int| 0 <= i < s.len() ==> divides(d, #[trigger] s[i] as int)) implies divides(
            d,
            #[trigger] gcd_all(s) as int,
        ) by {
            assert forall|i: int| 0 <= i < t.len() implies divides(d, #[trigger] t[i] as int) by {
                assert(t[i] == s[i]);
            }
            assert(divides(d, gt as int));
            assert(divides(d, s[s.len() - 1] as int));
            lemma_common_divisor_divides_gcd(d, gt, x);
        }
    }
}

/// The greatest common divisor of all of `parts`.
pub fn gcd_of(parts: &Vec<u64>) -> (r: u64)
    ensures
        r == gcd_all(parts@),
{
    let mut g: u64 = 0;
    let mut i: usize = 0;
    while i < parts.len()
        invariant
            i <= parts@.len(),
            g == gcd_all(parts@.subrange(0, i as int)),
        decreases parts@.len() - i,
    {
        assert(parts@.subrange(0, i + 1).drop_last() =~= parts@.subrange(0, i as int));
        g = gcd_u64(g, parts[i]);
        i += 1;
    }
    assert(parts@.subrange(0, parts@.len() as int) =~= parts@);
    g
}

} // verus!
