//! Number theory on machine integers, factorials of any size, and random
//! integers.
use vstd::prelude::*;
use num_bigint::BigInt;
use rand::Rng;

verus! {

/// `num_bigint::BigInt`: an integer of any size, opaque here.
#[verifier::external_type_specification]
#[verifier::external_body]
pub struct ExBigInt(BigInt);

/// The integer that a `BigInt` holds.
pub uninterp spec fn bigint_value(b: BigInt) -> int;

/// Calls `BigInt::from` on a `u64`: the same number.
#[verifier::external_body]
fn big_from(n: u64) -> (r: BigInt)
    ensures
        bigint_value(r) == n,
{
    BigInt::from(n)
}

/// Multiplies two `BigInt`s with `*`: the product, whatever its size.
#[verifier::external_body]
fn big_mul(a: &BigInt, b: &BigInt) -> (r: BigInt)
    ensures
        bigint_value(r) == bigint_value(*a) * bigint_value(*b),
{
    a * b
}

/// The absolute value of an integer.
pub open spec fn abs_of(x: int) -> nat {
    if x < 0 {
        (-x) as nat
    } else {
        x as nat
    }
}

/// Whether `d` divides `n`.
pub open spec fn divides(d: nat, n: nat) -> bool {
    exists|k: nat| n == #[trigger] (k * d)
}

/// The greatest common divisor, by Euclid's rule; `gcd_nat(0, 0)` is 0.
pub open spec fn gcd_nat(a: nat, b: nat) -> nat
    decreases b,
{
    if b == 0 {
        a
    } else {
        gcd_nat(b, a % b)
    }
}

/// The least common multiple; zero if either number is zero.
pub open spec fn lcm_nat(a: nat, b: nat) -> nat {
    if a == 0 || b == 0 {
        0
    } else {
        (a * b) / gcd_nat(a, b)
    }
}

/// The product of the numbers from 1 to `n`; 1 for zero.
pub open spec fn factorial_of(n: nat) -> nat
    decreases n,
{
    if n == 0 {
        1
    } else {
        n * factorial_of((n - 1) as nat)
    }
}

/// Whether `n` is prime: at least 2, and divisible by no number between 1
/// and itself.
pub open spec fn is_prime_nat(n: nat) -> bool {
    n >= 2 && forall|d: nat| 2 <= d < n ==> #[trigger] (n % d) != 0
}

/// The Fibonacci numbers: 0, 1, and from there each the sum of the two
/// before it.
pub open spec fn fib(n: nat) -> nat
    decreases n,
{
    if n == 0 {
        0
    } else if n == 1 {
        1
    } else {
        fib((n - 1) as nat) + fib((n - 2) as nat)
    }
}

/// The greatest common divisor divides both numbers.
pub proof fn law_gcd_divides_both(a: nat, b: nat)
    ensures
        divides(gcd_nat(a, b), a),
        divides(gcd_nat(a, b), b),
    decreases b,
{
    let g = gcd_nat(a, b);
    if b == 0 {
        assert(a == 1 * g);
        assert(b == 0 * g);
    } else {
        law_gcd_divides_both(b, a % b);
        let kb = choose|k: nat| b == #[trigger] (k * g);
        let kr = choose|k: nat| a % b == #[trigger] (k * g);
        let q = a / b;
        assert(a == q * b + a % b) by {
            vstd::arithmetic::div_mod::lemma_fundamental_div_mod(a as int, b as int);
        }
        assert(a == (q * kb + kr) * g) by (nonlinear_arith)
            requires
                a == q * b + a % b,
                b == kb * g,
                a % b == kr * g,
        ;
    }
}

/// Every common divisor of two numbers divides their greatest common
/// divisor.
pub proof fn law_gcd_is_greatest(a: nat, b: nat, d: nat)
    requires
        divides(d, a),
        divides(d, b),
    ensures
        divides(d, gcd_nat(a, b)),
    decreases b,
{
    if b != 0 {
        let ka = choose|k: nat| a == #[trigger] (k * d);
        let kb = choose|k: nat| b == #[trigger] (k * d);
        let q = a / b;
        assert(a == q * b + a % b) by {
            vstd::arithmetic::div_mod::lemma_fundamental_div_mod(a as int, b as int);
        }
        assert(d > 0) by {
            if d == 0 {
                assert(kb * d == 0) by (nonlinear_arith)
                    requires
                        d == 0,
                ;
            }
        }
        assert(q * b == (q * kb) * d) by (nonlinear_arith)
            requires
                b == kb * d,
        ;
        assert(ka * d - (q * kb) * d == (ka - q * kb) * d) by (nonlinear_arith);
        assert(ka >= q * kb) by (nonlinear_arith)
            requires
                (ka - q * kb) * d >= 0,
                d > 0,
        ;
        let kr = (ka - q * kb) as nat;
        assert(a % b == kr * d);
        law_gcd_is_greatest(b, a % b, d);
    }
}

/// The least common multiple is a multiple of both numbers.
pub proof fn law_lcm_is_common_multiple(a: nat, b: nat)
    ensures
        divides(a, lcm_nat(a, b)),
        divides(b, lcm_nat(a, b)),
{
    if a == 0 || b == 0 {
        assert(lcm_nat(a, b) == 0 * a);
        assert(lcm_nat(a, b) == 0 * b);
    } else {
        let g = gcd_nat(a, b);
        lemma_gcd_positive(a, b);
        law_gcd_divides_both(a, b);
        let ka = choose|k: nat| a == #[trigger] (k * g);
        let kb = choose|k: nat| b == #[trigger] (k * g);
        assert(a * b == g * (ka * b)) by (nonlinear_arith)
            requires
                a == ka * g,
        ;
        assert(a * b == g * (kb * a)) by (nonlinear_arith)
            requires
                b == kb * g,
        ;
        vstd::arithmetic::div_mod::lemma_div_multiples_vanish((ka * b) as int, g as int);
        vstd::arithmetic::div_mod::lemma_div_multiples_vanish((kb * a) as int, g as int);
        assert(lcm_nat(a, b) == ka * b);
        assert(lcm_nat(a, b) == kb * a);
    }
}

/// The greatest common divisor is zero only of zero and zero.
pub proof fn lemma_gcd_positive(a: nat, b: nat)
    requires
        a > 0 || b > 0,
    ensures
        gcd_nat(a, b) > 0,
    decreases b,
{
    if b != 0 {
        lemma_gcd_positive(b, a % b);
    }
}

/// The Fibonacci numbers never fall.
pub proof fn lemma_fib_monotonic(i: nat, j: nat)
    requires
        i <= j,
    ensures
        fib(i) <= fib(j),
    decreases j,
{
    if i < j {
        lemma_fib_monotonic(i, (j - 1) as nat);
    }
}

/// The Fibonacci numbers up to the 93rd, the last that fits in 64 bits.
pub proof fn lemma_fib_table()
    ensures
        fib(93) == 12200160415121876738,
{
    assert(fib(0) == 0);
    assert(fib(1) == 1);
    assert(fib(2) == 1);
    assert(fib(3) == 2);
    assert(fib(4) == 3);
    assert(fib(5) == 5);
    assert(fib(6) == 8);
    assert(fib(7) == 13);
    assert(fib(8) == 21);
    assert(fib(9) == 34);
    assert(fib(10) == 55);
    assert(fib(11) == 89);
    assert(fib(12) == 144);
    assert(fib(13) == 233);
    assert(fib(14) == 377);
    assert(fib(15) == 610);
    assert(fib(16) == 987);
    assert(fib(17) == 1597);
    assert(fib(18) == 2584);
    assert(fib(19) == 4181);
    assert(fib(20) == 6765);
    assert(fib(21) == 10946);
    assert(fib(22) == 17711);
    assert(fib(23) == 28657);
    assert(fib(24) == 46368);
    assert(fib(25) == 75025);
    assert(fib(26) == 121393);
    assert(fib(27) == 196418);
    assert(fib(28) == 317811);
    assert(fib(29) == 514229);
    assert(fib(30) == 832040);
    assert(fib(31) == 1346269);
    assert(fib(32) == 2178309);
    assert(fib(33) == 3524578);
    assert(fib(34) == 5702887);
    assert(fib(35) == 9227465);
    assert(fib(36) == 14930352);
    assert(fib(37) == 24157817);
    assert(fib(38) == 39088169);
    assert(fib(39) == 63245986);
    assert(fib(40) == 102334155);
    assert(fib(41) == 165580141);
    assert(fib(42) == 267914296);
    assert(fib(43) == 433494437);
    assert(fib(44) == 701408733);
    assert(fib(45) == 1134903170);
    assert(fib(46) == 1836311903);
    assert(fib(47) == 2971215073);
    assert(fib(48) == 4807526976);
    assert(fib(49) == 7778742049);
    assert(fib(50) == 12586269025);
    assert(fib(51) == 20365011074);
    assert(fib(52) == 32951280099);
    assert(fib(53) == 53316291173);
    assert(fib(54) == 86267571272);
    assert(fib(55) == 139583862445);
    assert(fib(56) == 225851433717);
    assert(fib(57) == 365435296162);
    assert(fib(58) == 591286729879);
    assert(fib(59) == 956722026041);
    assert(fib(60) == 1548008755920);
    assert(fib(61) == 2504730781961);
    assert(fib(62) == 4052739537881);
    assert(fib(63) == 6557470319842);
    assert(fib(64) == 10610209857723);
    assert(fib(65) == 17167680177565);
    assert(fib(66) == 27777890035288);
    assert(fib(67) == 44945570212853);
    assert(fib(68) == 72723460248141);
    assert(fib(69) == 117669030460994);
    assert(fib(70) == 190392490709135);
    assert(fib(71) == 308061521170129);
    assert(fib(72) == 498454011879264);
    assert(fib(73) == 806515533049393);
    assert(fib(74) == 1304969544928657);
    assert(fib(75) == 2111485077978050);
    assert(fib(76) == 3416454622906707);
    assert(fib(77) == 5527939700884757);
    assert(fib(78) == 8944394323791464);
    assert(fib(79) == 14472334024676221);
    assert(fib(80) == 23416728348467685);
    assert(fib(81) == 37889062373143906);
    assert(fib(82) == 61305790721611591);
    assert(fib(83) == 99194853094755497);
    assert(fib(84) == 160500643816367088);
    assert(fib(85) == 259695496911122585);
    assert(fib(86) == 420196140727489673);
    assert(fib(87) == 679891637638612258);
    assert(fib(88) == 1100087778366101931);
    assert(fib(89) == 1779979416004714189);
    assert(fib(90) == 2880067194370816120);
    assert(fib(91) == 4660046610375530309);
    assert(fib(92) == 7540113804746346429);
    assert(fib(93) == 12200160415121876738);
}

/// Number theory and random integers.
pub struct RMath;

impl RMath {
    /// The greatest common divisor of the absolute values of `a` and `b`.
    pub fn gcd(a: i64, b: i64) -> (r: i64)
        requires
            a > i64::MIN,
            b > i64::MIN,
        ensures
            r == gcd_nat(abs_of(a as int), abs_of(b as int)),
    {
        let mut x: i64 = if a < 0 {
            -a
        } else {
            a
        };
        let mut y: i64 = if b < 0 {
            -b
        } else {
            b
        };
        while y != 0
            invariant
                x >= 0,
                y >= 0,
                gcd_nat(x as nat, y as nat) == gcd_nat(abs_of(a as int), abs_of(b as int)),
            decreases y,
        {
            let temp = y;
            y = x % y;
            x = temp;
        }
        x
    }

    /// The least common multiple of the absolute values of `a` and `b`; zero
    /// if either is zero.
    pub fn lcm(a: i64, b: i64) -> (r: i64)
        requires
            a > i64::MIN,
            b > i64::MIN,
            abs_of(a as int) * abs_of(b as int) <= i64::MAX,
        ensures
            r == lcm_nat(abs_of(a as int), abs_of(b as int)),
    {
        if a == 0 || b == 0 {
            0
        } else {
            let x: i64 = if a < 0 {
                -a
            } else {
                a
            };
            let y: i64 = if b < 0 {
                -b
            } else {
                b
            };
            let g = RMath::gcd(a, b);
            proof {
                lemma_gcd_positive(abs_of(a as int), abs_of(b as int));
            }
            (x * y) / g
        }
    }

    /// Whether `n` is prime.
    pub fn is_prime(n: u64) -> (r: bool)
        ensures
            r == is_prime_nat(n as nat),
    {
        if n < 2 {
            return false;
        }
        if n == 2 {
            return true;
        }
        if n % 2 == 0 {
            assert((n as nat) % 2 == 0);
            return false;
        }
        let mut i: u64 = 3;
        while i <= n / i
            invariant
                n >= 3,
                n % 2 == 1,
                3 <= i,
                i % 2 == 1,
                i <= 0x1_0000_0001,
                forall|d: nat| 2 <= d < i ==> #[trigger] ((n as nat) % d) != 0,
            decreases n - i,
        {
            if n % i == 0 {
                assert((n as nat) % (i as nat) == 0);
                assert(i < n) by (nonlinear_arith)
                    requires
                        i <= n / i,
                        i >= 3,
                        n >= 3,
                {
                }
                return false;
            }
            proof {
                assert(i * i <= n) by (nonlinear_arith)
                    requires
                        i <= n / i,
                        i >= 3,
                {
                }
                assert(i < 0x1_0000_0000) by (nonlinear_arith)
                    requires
                        i * i <= n,
                        n <= 0xFFFF_FFFF_FFFF_FFFF,
                        i >= 0,
                {
                }
                assert(i < n) by (nonlinear_arith)
                    requires
                        i * i <= n,
                        i >= 3,
                ;
                lemma_odd_has_no_even_divisor(n as nat, (i + 1) as nat);
            }
            i = i + 2;
        }
        proof {
            assert(i * i > n) by (nonlinear_arith)
                requires
                    i > n / i,
                    i >= 3,
            {
            }
            assert forall|d: nat| 2 <= d < n implies #[trigger] ((n as nat) % d) != 0 by {
                if d >= i && (n as nat) % d == 0 {
                    lemma_cofactor(n as nat, d, i as nat);
                }
            }
        }
        true
    }

    /// The first `n` Fibonacci numbers. The 94 first fit in 64 bits.
    pub fn fibonacci(n: usize) -> (r: Vec<u64>)
        requires
            n <= 94,
        ensures
            r.len() == n,
            forall|i: int| 0 <= i < n ==> r[i] == fib(i as nat),
    {
        if n == 0 {
            return Vec::new();
        }
        let mut out: Vec<u64> = Vec::new();
        out.push(0);
        if n == 1 {
            return out;
        }
        out.push(1);
        let mut i: usize = 2;
        while i < n
            invariant
                2 <= i <= n,
                n <= 94,
                out.len() == i,
                forall|k: int| 0 <= k < i ==> out[k] == fib(k as nat),
            decreases n - i,
        {
            proof {
                lemma_fib_table();
                lemma_fib_monotonic(i as nat, 93);
            }
            let next: u64 = out[i - 1] + out[i - 2];
            out.push(next);
            i = i + 1;
        }
        out
    }

    /// The product of the numbers from 1 to `n`, whatever its size.
    pub fn factorial(n: u64) -> (r: BigInt)
        ensures
            bigint_value(r) == factorial_of(n as nat),
    {
        let mut acc = big_from(1);
        let mut i: u64 = 0;
        while i < n
            invariant
                i <= n,
                bigint_value(acc) == factorial_of(i as nat),
            decreases n - i,
        {
            i = i + 1;
            let factor = big_from(i);
            acc = big_mul(&factor, &acc);
        }
        acc
    }

    /// Draws an integer from `min` to `max`, both included, with
    /// `rand::thread_rng().gen_range(min..=max)`. Trusted: the draw lies in
    /// the range. An empty range is left out, for on it `gen_range` panics.
    #[verifier::external_body]
    pub fn random_range(min: i64, max: i64) -> (r: i64)
        requires
            min <= max,
        ensures
            min <= r <= max,
    {
        rand::thread_rng().gen_range(min..=max)
    }
}

/// An odd number has no even divisor.
proof fn lemma_odd_has_no_even_divisor(n: nat, d: nat)
    requires
        n % 2 == 1,
        d % 2 == 0,
        d > 0,
    ensures
        n % d != 0,
{
    if n % d == 0 {
        let q = n / d;
        let h = d / 2;
        assert(n == q * d) by {
            vstd::arithmetic::div_mod::lemma_fundamental_div_mod(n as int, d as int);
            assert(d * q == q * d) by (nonlinear_arith);
        }
        assert(d == 2 * h);
        assert(n == 2 * (q * h)) by (nonlinear_arith)
            requires
                n == q * d,
                d == 2 * h,
        ;
        assert(n % 2 == 0);
    }
}

/// A divisor `d` of `n` with `limit <= d < n`, where `limit * limit > n`,
/// has a cofactor from 2 to below `limit` that divides `n` too.
proof fn lemma_cofactor(n: nat, d: nat, limit: nat)
    requires
        2 <= limit <= d < n,
        limit * limit > n,
        n % d == 0,
    ensures
        exists|q: nat| 2 <= q < limit && #[trigger] (n % q) == 0,
{
    let q = n / d;
    assert(n == q * d) by {
        vstd::arithmetic::div_mod::lemma_fundamental_div_mod(n as int, d as int);
        assert(d * q == q * d) by (nonlinear_arith);
    }
    assert(q >= 2) by (nonlinear_arith)
        requires
            n == q * d,
            d < n,
            d >= 2,
    ;
    assert(q < limit) by (nonlinear_arith)
        requires
            n == q * d,
            limit <= d,
            limit * limit > n,
            q >= 0,
    ;
    assert(n % q == 0) by {
        vstd::arithmetic::div_mod::lemma_mod_multiples_basic(d as int, q as int);
        assert(d * q == q * d) by (nonlinear_arith);
    }
}

} // verus!
