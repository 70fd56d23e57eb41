//! The synthetic accumulators of a `Loop` task. All addition wraps modulo
//! 2^32.
use vstd::prelude::*;
use crate::outside::random_u32;
use crate::text::same_text;

verus! {

/// One round of the `xor` accumulator.
pub open spec fn xor_round(val: u32, i: u32) -> u32 {
    val.wrapping_add(i) ^ 0x12345678u32
}

/// The `xor` accumulator after rounds `0..n`, from zero.
pub open spec fn xor_accumulate(n: nat) -> u32
    decreases n,
{
    if n == 0 {
        0
    } else {
        xor_round(xor_accumulate((n - 1) as nat), (n - 1) as u32)
    }
}

/// One round of the `blockchain` accumulator, with the number drawn for it.
pub open spec fn chain_round(val: u32, draw: u32) -> u32 {
    val.wrapping_add(draw) ^ 0xDEADBEEFu32
}

/// The `blockchain` accumulator after one round per draw, from zero.
pub open spec fn chain_accumulate(draws: Seq<u32>) -> u32
    decreases draws.len(),
{
    if draws.len() == 0 {
        0
    } else {
        chain_round(chain_accumulate(draws.drop_last()), draws.last())
    }
}

/// The running sum of `0..n`, from zero.
pub open spec fn sum_accumulate(n: nat) -> u32
    decreases n,
{
    if n == 0 {
        0
    } else {
        sum_accumulate((n - 1) as nat).wrapping_add((n - 1) as u32)
    }
}

/// The sum of the numbers below `n`.
pub open spec fn triangular(n: nat) -> nat
    decreases n,
{
    if n == 0 {
        0
    } else {
        triangular((n - 1) as nat) + (n - 1) as nat
    }
}

/// What a loop with the given operation may end on: for `xor` and for the
/// plain sum a single value, for `blockchain` the value of some sequence of
/// `iterations` draws.
pub open spec fn loop_admits(operation: Seq<char>, iterations: u32, val: u32) -> bool {
    if operation == "xor"@ {
        val == xor_accumulate(iterations as nat)
    } else if operation == "blockchain"@ {
        exists|draws: Seq<u32>|
            draws.len() == iterations && val == #[trigger] chain_accumulate(draws)
    } else {
        val == sum_accumulate(iterations as nat)
    }
}

/// The `xor` accumulator: `val = (val + i) ^ 0x12345678` for `i` in
/// `0..iterations`.
pub fn xor_loop(iterations: u32) -> (val: u32)
    ensures
        val == xor_accumulate(iterations as nat),
{
    let mut val: u32 = 0;
    let mut i: u32 = 0;
    while i < iterations
        invariant
            i <= iterations,
            val == xor_accumulate(i as nat),
        decreases iterations - i,
    {
        val = val.wrapping_add(i) ^ 0x12345678u32;
        i = i + 1;
    }
    val
}

/// The running sum: `val = val + i` for `i` in `0..iterations`.
pub fn sum_loop(iterations: u32) -> (val: u32)
    ensures
        val == sum_accumulate(iterations as nat),
{
    let mut val: u32 = 0;
    let mut i: u32 = 0;
    while i < iterations
        invariant
            i <= iterations,
            val == sum_accumulate(i as nat),
        decreases iterations - i,
    {
        val = val.wrapping_add(i);
        i = i + 1;
    }
    val
}

/// One round of the `blockchain` accumulator.
pub fn chain_step(val: u32, draw: u32) -> (next: u32)
    ensures
        next == chain_round(val, draw),
{
    val.wrapping_add(draw) ^ 0xDEADBEEFu32
}

/// The `blockchain` accumulator over the given draws, first to last.
pub fn chain_fold(draws: &Vec<u32>) -> (val: u32)
    ensures
        val == chain_accumulate(draws@),
{
    let mut val: u32 = 0;
    let mut i: usize = 0;
    while i < draws.len()
        invariant
            i <= draws.len(),
            val == chain_accumulate(draws@.take(i as int)),
        decreases draws.len() - i,
    {
        proof {
            assert(draws@.take(i + 1).drop_last() =~= draws@.take(i as int));
        }
        val = chain_step(val, draws[i]);
        i = i + 1;
    }
    assert(draws@.take(i as int) =~= draws@);
    val
}

/// The `blockchain` accumulator: `val = (val + draw) ^ 0xDEADBEEF`,
/// `iterations` times, each round with a fresh random draw. The result is the
/// value of `chain_accumulate` on the numbers that were drawn.
pub fn chain_loop(iterations: u32) -> (val: u32)
    ensures
        exists|draws: Seq<u32>|
            draws.len() == iterations && val == #[trigger] chain_accumulate(draws),
{
    let mut val: u32 = 0;
    let mut i: u32 = 0;
    let ghost mut drawn: Seq<u32> = Seq::empty();
    while i < iterations
        invariant
            i <= iterations,
            drawn.len() == i,
            val == chain_accumulate(drawn),
        decreases iterations - i,
    {
        let draw = random_u32();
        proof {
            assert(drawn.push(draw).drop_last() =~= drawn);
            drawn = drawn.push(draw);
        }
        val = chain_step(val, draw);
        i = i + 1;
    }
    val
}

/// Runs the accumulator that `operation` names: `"xor"`, `"blockchain"`, or
/// the running sum for any other word.
pub fn run_loop(iterations: u32, operation: &str) -> (val: u32)
    ensures
        loop_admits(operation@, iterations, val),
{
    if same_text(operation, "xor") {
        xor_loop(iterations)
    } else if same_text(operation, "blockchain") {
        chain_loop(iterations)
    } else {
        sum_loop(iterations)
    }
}

/// The `xor` loop is a function of the number of rounds: two runs with the
/// same number end on the same value.
pub proof fn law_xor_loop_is_reproducible(iterations: u32, first: u32, second: u32)
    requires
        loop_admits("xor"@, iterations, first),
        loop_admits("xor"@, iterations, second),
    ensures
        first == second,
        first == xor_accumulate(iterations as nat),
{
}

/// Each round of the `xor` loop follows from the one before it by the
/// wrapping formula.
pub proof fn law_xor_loop_step(n: nat)
    requires
        n < u32::MAX,
    ensures
        xor_accumulate(0) == 0,
        xor_accumulate(n + 1) == (xor_accumulate(n).wrapping_add(n as u32) ^ 0x12345678u32),
{
}

/// The running sum is the sum of the numbers below `n`, of which twice is
/// `n * (n - 1)`, taken modulo 2^32.
pub proof fn law_sum_loop_closed_form(n: nat)
    requires
        n <= u32::MAX,
    ensures
        sum_accumulate(n) == triangular(n) % 0x1_0000_0000,
        2 * triangular(n) == n * (n - 1),
    decreases n,
{
    if n > 0 {
        let m = (n - 1) as nat;
        law_sum_loop_closed_form(m);
        let s = sum_accumulate(m) as int;
        let t = triangular(m) as int;
        let r = 0x1_0000_0000int;
        assert(2 * triangular(n) == n * (n - 1)) by (nonlinear_arith)
            requires
                triangular(n) == triangular(m) + m,
                2 * triangular(m) == m * (m - 1),
                m == n - 1,
        ;
        assert(sum_accumulate(n) as int == (s + m) % r) by {
            if s + m >= r {
                vstd::arithmetic::div_mod::lemma_fundamental_div_mod_converse(s + m, r, 1, s + m - r);
            } else {
                vstd::arithmetic::div_mod::lemma_small_mod((s + m) as nat, r as nat);
            }
        }
        assert((s + m) % r == (t + m) % r) by {
            vstd::arithmetic::div_mod::lemma_add_mod_noop(t, m as int, r);
            vstd::arithmetic::div_mod::lemma_add_mod_noop(s, m as int, r);
            vstd::arithmetic::div_mod::lemma_small_mod(s as nat, r as nat);
        }
    } else {
        assert(triangular(0) % 0x1_0000_0000 == 0) by {
            vstd::arithmetic::div_mod::lemma_small_mod(0, 0x1_0000_0000);
        }
    }
}

} // verus!
