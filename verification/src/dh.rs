use vstd::prelude::*;
use vstd::calc;
use vstd::arithmetic::div_mod::{lemma_mul_mod_noop_general, lemma_mod_division_less_than_divisor};
use vstd::arithmetic::mul::{lemma_mul_is_associative, lemma_mul_is_commutative};
use vstd::arithmetic::power::{
    lemma_pow0, lemma_pow1, lemma_pow_adds, lemma_pow_mod_noop, lemma_pow_multiplies,
    lemma_square_is_pow2, pow,
};

verus! {

/// The modulus of the key agreement: the largest prime below `2^64`.
pub const DH_PRIME: u64 = 0xFFFF_FFFF_FFFF_FFC5;

/// The generator of the key agreement.
pub const DH_GENERATOR: u64 = 2;

/// `b^e mod m`, the mathematical value every function here is held to.
pub open spec fn spec_pow_mod(b: int, e: nat, m: int) -> int {
    pow(b, e) % m
}

/// `(a * b) mod m` without overflow, by widening to 128 bits.
fn mul_mod(a: u64, b: u64, m: u64) -> (r: u64)
    requires
        m > 0,
    ensures
        r == (a as int * b as int) % (m as int),
{
    proof {
        assert((a as int) * (b as int) <= 0xffff_ffff_ffff_ffff * 0xffff_ffff_ffff_ffff)
            by (nonlinear_arith)
            requires
                a <= 0xffff_ffff_ffff_ffff,
                b <= 0xffff_ffff_ffff_ffff,
        ;
    }
    let p: u128 = (a as u128) * (b as u128);
    (p % (m as u128)) as u64
}

/// `b^e mod m` by binary exponentiation.
pub fn pow_mod(b: u64, e: u64, m: u64) -> (r: u64)
    requires
        m > 1,
    ensures
        r == spec_pow_mod(b as int, e as nat, m as int),
{
    let mut result: u64 = 1;
    let mut base: u64 = b % m;
    let mut exp: u64 = e;
    proof {
        lemma_pow_mod_noop(b as int, e as nat, m as int);
        lemma_mul_mod_noop_general(1, pow(base as int, exp as nat), m as int);
        assert(1 * pow(base as int, exp as nat) == pow(base as int, exp as nat));
        assert((result as int * pow(base as int, exp as nat)) % (m as int) == pow(
            b as int,
            e as nat,
        ) % (m as int));
    }
    while exp > 0
        invariant
            m > 1,
            result < m,
            base < m,
            (result as int * pow(base as int, exp as nat)) % (m as int) == pow(
                b as int,
                e as nat,
            ) % (m as int),
        decreases exp,
    {
        let ghost old_result = result as int;
        let ghost old_base = base as int;
        let ghost old_exp = exp as nat;
        let ghost mi = m as int;
        if exp % 2 == 1 {
            result = mul_mod(result, base, m);
        }
        let squared = mul_mod(base, base, m);
        base = squared;
        exp = exp / 2;
        proof {
            let k = exp as nat;
            // pow(new base, k) has the same residue as pow(old base, 2k)
            lemma_square_is_pow2(old_base);
            lemma_pow_multiplies(old_base, 2, k);
            lemma_pow_mod_noop(old_base * old_base, k, mi);
            assert(pow((old_base * old_base) % mi, k) % mi == pow(old_base, 2 * k) % mi);
            if old_exp % 2 == 1 {
                assert(old_exp == 2 * k + 1);
                // result' == (old_result * old_base) % m
                lemma_pow1(old_base);
                lemma_pow_adds(old_base, 1, 2 * k);
                assert(pow(old_base, old_exp) == old_base * pow(old_base, 2 * k));
                calc! {
                    (==)
                    (result as int * pow(base as int, k)) % mi; {
                        lemma_mul_mod_noop_general(
                            old_result * old_base,
                            pow(base as int, k),
                            mi,
                        );
                    }
                    ((old_result * old_base) * pow(base as int, k)) % mi; {
                        lemma_mul_mod_noop_general(old_result * old_base, pow(base as int, k), mi);
                        assert((pow(base as int, k)) % mi == (pow(old_base, 2 * k)) % mi);
                        lemma_mul_mod_noop_general(old_result * old_base, pow(old_base, 2 * k), mi);
                    }
                    ((old_result * old_base) * pow(old_base, 2 * k)) % mi; {
                        lemma_mul_is_associative(old_result, old_base, pow(old_base, 2 * k));
                    }
                    (old_result * (old_base * pow(old_base, 2 * k))) % mi; {}
                    (old_result * pow(old_base, old_exp)) % mi;
                }
            } else {
                assert(old_exp == 2 * k);
                calc! {
                    (==)
                    (result as int * pow(base as int, k)) % mi; {
                        lemma_mul_mod_noop_general(old_result, pow(base as int, k), mi);
                        assert((pow(base as int, k)) % mi == (pow(old_base, 2 * k)) % mi);
                        lemma_mul_mod_noop_general(old_result, pow(old_base, 2 * k), mi);
                        lemma_mul_mod_noop_general(old_result, pow(base as int, k) % mi, mi);
                    }
                    (old_result * pow(old_base, old_exp)) % mi;
                }
            }
        }
    }
    proof {
        lemma_pow0(base as int);
        assert(result as int * 1 == result as int);
        vstd::arithmetic::div_mod::lemma_small_mod(result as nat, m as nat);
        assert((result as int) % (m as int) == result as int);
    }
    result
}

/// The public key belonging to a private exponent.
pub open spec fn spec_public_key(private: u64) -> int {
    spec_pow_mod(DH_GENERATOR as int, private as nat, DH_PRIME as int)
}

/// The shared secret one side derives from its own private exponent and the
/// peer's public key.
pub open spec fn spec_shared_secret(private: u64, peer_public: u64) -> int {
    spec_pow_mod(peer_public as int, private as nat, DH_PRIME as int)
}

/// Computes the public key for a private exponent.
pub fn public_key(private: u64) -> (r: u64)
    ensures
        r == spec_public_key(private),
{
    pow_mod(DH_GENERATOR, private, DH_PRIME)
}

/// Computes the shared secret from one side's private exponent and the
/// peer's public key.
pub fn shared_secret(private: u64, peer_public: u64) -> (r: u64)
    ensures
        r == spec_shared_secret(private, peer_public),
{
    pow_mod(peer_public, private, DH_PRIME)
}

/// Key-agreement correctness: for any two private exponents, the secret one
/// side derives from the other's public key equals the secret the other side
/// derives from the first side's public key.
pub proof fn lemma_shared_secret_agreement(a: u64, b: u64)
    ensures
        spec_shared_secret(a, (spec_public_key(b) as u64)) == spec_shared_secret(
            b,
            (spec_public_key(a) as u64),
        ),
{
    let p = DH_PRIME as int;
    let g = DH_GENERATOR as int;
    lemma_mod_division_less_than_divisor(pow(g, b as nat), p);
    lemma_mod_division_less_than_divisor(pow(g, a as nat), p);
    assert(spec_public_key(b) as u64 as int == pow(g, b as nat) % p);
    assert(spec_public_key(a) as u64 as int == pow(g, a as nat) % p);
    calc! {
        (==)
        pow(pow(g, b as nat) % p, a as nat) % p; {
            lemma_pow_mod_noop(pow(g, b as nat), a as nat, p);
        }
        pow(pow(g, b as nat), a as nat) % p; {
            lemma_pow_multiplies(g, b as nat, a as nat);
        }
        pow(g, (b as nat * a as nat)) % p; {
            lemma_mul_is_commutative(b as int, a as int);
        }
        pow(g, (a as nat * b as nat)) % p; {
            lemma_pow_multiplies(g, a as nat, b as nat);
        }
        pow(pow(g, a as nat), b as nat) % p; {
            lemma_pow_mod_noop(pow(g, a as nat), b as nat, p);
        }
        pow(pow(g, a as nat) % p, b as nat) % p;
    }
}

} // verus!
