//! The indicator's decision: a single-round Fermat probable-prime test on
//! the current wall time.
use vstd::prelude::*;
use vstd::arithmetic::div_mod::{lemma_mul_mod_noop_left, lemma_mul_mod_noop_right, lemma_small_mod};
use vstd::arithmetic::power::{
    lemma_pow0, lemma_pow1, lemma_pow_adds, lemma_pow_mod_noop, lemma_pow_multiplies, pow,
};

verus! {

/// The predicate: `n` is odd and `2^(n-1) mod n` is 1. Even numbers,
/// 2 among them, are rejected outright.
pub open spec fn fermat_probable_prime(n: nat) -> bool {
    n % 2 == 1 && pow(2, (n - 1) as nat) % (n as int) == 1
}

/// `pow(a, 2k) == pow(a * a, k)` and `pow(a, 2k + 1) == a * pow(a * a, k)`.
proof fn lemma_pow_halve(a: int, e: nat)
    ensures
        e % 2 == 0 ==> pow(a, e) == pow(a * a, e / 2),
        e % 2 == 1 ==> pow(a, e) == a * pow(a * a, e / 2),
{
    let h = e / 2;
    lemma_pow1(a);
    lemma_pow_adds(a, 1, 1);
    lemma_pow_multiplies(a, 2, h);
    if e % 2 == 1 {
        lemma_pow_adds(a, 1, 2 * h);
        assert(1 + 2 * h == e);
    } else {
        assert(2 * h == e);
    }
}

/// Single Fermat test to base 2, by binary modular exponentiation.
pub fn is_prime(n: u32) -> (r: bool)
    ensures
        r == fermat_probable_prime(n as nat),
{
    if n % 2 != 1 {
        return false;
    }
    let m = n as u64;
    let mut a: u64 = 2 % m;
    let mut xp: u32 = n - 1;
    let mut r: u64 = 1 % m;
    proof {
        lemma_pow_mod_noop(2, (n - 1) as nat, m as int);
        lemma_mul_mod_noop_left(1, pow(2int % (m as int), (n - 1) as nat), m as int);
    }
    while xp > 0
        invariant
            m == n,
            1 <= m <= 0xffff_ffff,
            a < m,
            r < m,
            (r * pow(a as int, xp as nat)) % (m as int) == pow(2, (n - 1) as nat) % (m as int),
        decreases xp,
    {
        proof {
            lemma_pow_halve(a as int, xp as nat);
        }
        let ghost old_r = r;
        let ghost old_a = a;
        let ghost rest = pow(a as int * a as int, (xp / 2) as nat);
        assert(r * a < 0x1_0000_0000_0000_0000 && a * a < 0x1_0000_0000_0000_0000)
            by (nonlinear_arith)
            requires
                r < m,
                a < m,
                m <= 0xffff_ffff,
        ;
        if xp % 2 == 1 {
            r = (r * a) % m;
            proof {
                // ((r a) mod m) * rest == r * (a * rest)   (mod m)
                lemma_mul_mod_noop_left(old_r as int * old_a as int, rest, m as int);
                assert(old_r as int * (old_a as int * rest) == (old_r as int * old_a as int) * rest)
                    by (nonlinear_arith);
            }
        }
        a = (a * a) % m;
        xp = xp / 2;
        proof {
            lemma_pow_mod_noop(old_a as int * old_a as int, xp as nat, m as int);
            lemma_mul_mod_noop_right(r as int, pow(old_a as int * old_a as int, xp as nat), m as int);
            lemma_mul_mod_noop_right(r as int, pow(a as int, xp as nat), m as int);
        }
    }
    proof {
        lemma_pow0(a as int);
        lemma_small_mod(r as nat, m as nat);
    }
    r == 1
}

/// Whether the indicator is lit at wall time `t`: the test on `t`
/// truncated to its low 32 bits.
pub fn indicator_level(t: u64) -> (r: bool)
    ensures
        r == fermat_probable_prime((t % 0x1_0000_0000) as nat),
{
    is_prime((t % 0x1_0000_0000) as u32)
}

} // verus!
