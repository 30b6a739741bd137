//! Arithmetic in a prime field, with values kept in canonical form `0 <= v < p`.
//!
//! Gates are polynomial identities over field elements, so the satisfaction
//! semantics of every gate is stated modulo the field's prime `p`. The
//! executable operations below work on canonical `u64` representatives.

use vstd::prelude::*;
use vstd::arithmetic::div_mod::{
    lemma_fundamental_div_mod_converse, lemma_mod_bound, lemma_mod_division_less_than_divisor,
    lemma_mul_mod_noop_general, lemma_small_mod,
};

verus! {

/// The modulus admits no zero divisors: a product vanishes modulo `p` only if
/// one factor vanishes modulo `p`. For `p > 1` this holds exactly when `p` is
/// prime, so it holds of the scalar field of any proving backend.
pub open spec fn no_zero_divisors(p: int) -> bool {
    forall|a: int, b: int| #[trigger] ((a * b) % p) == 0 ==> a % p == 0 || b % p == 0
}

/// A prime-field modulus large enough to tell the selector values 0, 1 and 2
/// apart.
pub open spec fn prime_modulus(p: int) -> bool {
    p > 2 && no_zero_divisors(p)
}

/// Canonical sum of two field elements.
pub open spec fn fadd(p: int, a: int, b: int) -> int {
    (a + b) % p
}

/// Canonical difference of two field elements (`b` is assumed canonical, so
/// `a + p - b` is non-negative).
pub open spec fn fsub(p: int, a: int, b: int) -> int {
    (a + p - b) % p
}

/// Canonical product of two field elements.
pub open spec fn fmul(p: int, a: int, b: int) -> int {
    (a * b) % p
}

/// The smallest modulus that `prime_modulus` admits: a witness that the
/// hypothesis every soundness law carries is satisfiable.
pub proof fn lemma_prime_modulus_three()
    ensures
        prime_modulus(3),
{
    assert forall|a: int, b: int| #[trigger] ((a * b) % 3) == 0 implies a % 3 == 0 || b % 3
        == 0 by {
        lemma_mul_mod_noop_general(a, b, 3);
        lemma_mod_bound(a, 3);
        lemma_mod_bound(b, 3);
        let ra = a % 3;
        let rb = b % 3;
        if ra != 0 && rb != 0 {
            assert(1 <= ra <= 2 && 1 <= rb <= 2);
            assert(ra * rb == 1 || ra * rb == 2 || ra * rb == 4) by (nonlinear_arith)
                requires
                    1 <= ra <= 2,
                    1 <= rb <= 2,
            ;
            lemma_small_mod(1, 3);
            lemma_small_mod(2, 3);
            lemma_fundamental_div_mod_converse(4, 3, 1, 1);
            assert((ra * rb) % 3 != 0);
        }
    }
}

/// In a prime field, a product of canonical values is zero only if one of the
/// factors is zero.
pub proof fn lemma_factor_zero(p: int, a: int, b: int)
    requires
        prime_modulus(p),
        0 <= a < p,
        0 <= b < p,
        fmul(p, a, b) == 0,
    ensures
        a == 0 || b == 0,
{
    assert((a * b) % p == 0);
    assert(a % p == 0 || b % p == 0);
    lemma_small_mod(a as nat, p as nat);
    lemma_small_mod(b as nat, p as nat);
}

/// The boolean gate `x * (x - 1) = 0` accepts a canonical value only if it is
/// 0 or 1.
pub proof fn lemma_boolean_gate(p: int, x: int)
    requires
        prime_modulus(p),
        0 <= x < p,
        fmul(p, x, fsub(p, x, 1)) == 0,
    ensures
        x == 0 || x == 1,
{
    let y = fsub(p, x, 1);
    lemma_mod_division_less_than_divisor(x + p - 1, p);
    lemma_factor_zero(p, x, y);
    if x != 0 {
        // x + p - 1 lies in [p, 2p), so its residue is x - 1.
        lemma_fundamental_div_mod_converse(x + p - 1, p, 1, x - 1);
        assert(y == x - 1);
    }
}

/// The partition gate `x + y - 1 = 0` over boolean `x`, `y` accepts exactly
/// when one of the two is set.
pub proof fn lemma_partition_gate(p: int, x: int, y: int)
    requires
        p > 2,
        x == 0 || x == 1,
        y == 0 || y == 1,
    ensures
        fsub(p, fadd(p, x, y), 1) == 0 <==> x + y == 1,
{
    lemma_small_mod((x + y) as nat, p as nat);
    let s = fadd(p, x, y);
    assert(s == x + y);
    if s == 0 {
        lemma_small_mod((p - 1) as nat, p as nat);
    } else if s == 1 {
        lemma_fundamental_div_mod_converse(s + p - 1, p, 1, 0);
    } else {
        lemma_fundamental_div_mod_converse(s + p - 1, p, 1, 1);
    }
}

/// The equality gate `a - b = 0` over canonical values accepts exactly when
/// the two values are equal; this needs no primality.
pub proof fn lemma_difference_gate(p: int, a: int, b: int)
    requires
        p > 0,
        0 <= a < p,
        0 <= b < p,
    ensures
        fsub(p, a, b) == 0 <==> a == b,
{
    if a >= b {
        lemma_fundamental_div_mod_converse(a + p - b, p, 1, a - b);
    } else {
        lemma_small_mod((a + p - b) as nat, p as nat);
    }
}

/// A product with a zero factor is zero, whatever the other factor.
pub proof fn lemma_mul_zero(p: int, a: int, b: int)
    requires
        p > 0,
        a == 0 || b == 0,
    ensures
        fmul(p, a, b) == 0,
{
    lemma_small_mod(0, p as nat);
}

/// Canonical sum of two canonical field elements.
pub fn add_mod(a: u64, b: u64, p: u64) -> (r: u64)
    requires
        p > 0,
        a < p,
        b < p,
    ensures
        r as int == fadd(p as int, a as int, b as int),
        r < p,
{
    let r = if a >= p - b {
        a - (p - b)
    } else {
        a + b
    };
    proof {
        if a >= p - b {
            lemma_fundamental_div_mod_converse(a as int + b as int, p as int, 1, r as int);
        } else {
            lemma_small_mod((a + b) as nat, p as nat);
        }
    }
    r
}

/// Canonical difference of two canonical field elements.
pub fn sub_mod(a: u64, b: u64, p: u64) -> (r: u64)
    requires
        p > 0,
        a < p,
        b < p,
    ensures
        r as int == fsub(p as int, a as int, b as int),
        r < p,
{
    let r = if a >= b {
        a - b
    } else {
        a + (p - b)
    };
    proof {
        if a >= b {
            lemma_fundamental_div_mod_converse(a as int + p as int - b as int, p as int, 1, r as int);
        } else {
            lemma_small_mod(r as nat, p as nat);
        }
    }
    r
}

/// Canonical product of two canonical field elements.
pub fn mul_mod(a: u64, b: u64, p: u64) -> (r: u64)
    requires
        p > 0,
        a < p,
        b < p,
    ensures
        r as int == fmul(p as int, a as int, b as int),
        r < p,
{
    proof {
        assert((a as int) * (b as int) <= (u64::MAX as int) * (u64::MAX as int))
            by (nonlinear_arith)
            requires
                0 <= a as int <= u64::MAX as int,
                0 <= b as int <= u64::MAX as int,
        ;
    }
    let prod: u128 = (a as u128) * (b as u128);
    let rem: u128 = prod % (p as u128);
    proof {
        lemma_mod_division_less_than_divisor(prod as int, p as int);
        assert(rem as int == (a as int * b as int) % (p as int));
    }
    rem as u64
}

} // verus!
