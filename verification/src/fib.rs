//! The Fibonacci sequence and its naive recursive computation.

use vstd::prelude::*;

verus! {

/// The Fibonacci sequence: 0, then 1, and from there on the sum of the two
/// values before.
pub open spec fn fib(n: nat) -> nat
    decreases n,
{
    if n == 0 {
        0
    } else if n == 1 {
        1
    } else {
        fib((n - 1) as nat) + fib((n - 2) as nat)
    }
}

/// At the base of the sequence, each of the first two values is its own
/// index.
pub proof fn lemma_fib_base(n: nat)
    requires
        n <= 1,
    ensures
        fib(n) == n,
{
}

/// Past the base, each value of the sequence is the sum of the two values
/// before it.
pub proof fn lemma_fib_recurrence(n: nat)
    requires
        n >= 2,
    ensures
        fib(n) == fib((n - 1) as nat) + fib((n - 2) as nat),
{
}

/// The sequence never decreases: a later value is at least as large as an
/// earlier one.
proof fn lemma_fib_monotonic(i: nat, j: nat)
    requires
        i <= j,
    ensures
        fib(i) <= fib(j),
    decreases j - i,
{
    if i < j {
        lemma_fib_monotonic(i, (j - 1) as nat);
        if j >= 2 {
            assert(fib(j) == fib((j - 1) as nat) + fib((j - 2) as nat));
        } else {
            assert(fib(0) == 0);
            assert(fib(1) == 1);
        }
    }
}

/// Every value of the sequence up to the thirty-fifth fits in a `u32`: the
/// thirty-fifth itself is 9227465, reached by walking the recurrence up one
/// step at a time, and no earlier value exceeds it.
pub proof fn lemma_fib_fits_u32(n: nat)
    requires
        n <= 35,
    ensures
        fib(35) == 9227465,
        fib(n) <= 9227465,
{
    assert(fib(0) == 0);
    assert(fib(1) == 1);
    assert(fib(2) == 1);
    assert(fib(3) == 2);
    assert(fib(4) == 3);
    assert(fib(5) == 5);
    assert(fib(6) == 8);
    assert(fib(7) == 13);
    assert(fib(8) == 21);
    assert(fib(9) == 34);
    assert(fib(10) == 55);
    assert(fib(11) == 89);
    assert(fib(12) == 144);
    assert(fib(13) == 233);
    assert(fib(14) == 377);
    assert(fib(15) == 610);
    assert(fib(16) == 987);
    assert(fib(17) == 1597);
    assert(fib(18) == 2584);
    assert(fib(19) == 4181);
    assert(fib(20) == 6765);
    assert(fib(21) == 10946);
    assert(fib(22) == 17711);
    assert(fib(23) == 28657);
    assert(fib(24) == 46368);
    assert(fib(25) == 75025);
    assert(fib(26) == 121393);
    assert(fib(27) == 196418);
    assert(fib(28) == 317811);
    assert(fib(29) == 514229);
    assert(fib(30) == 832040);
    assert(fib(31) == 1346269);
    assert(fib(32) == 2178309);
    assert(fib(33) == 3524578);
    assert(fib(34) == 5702887);
    assert(fib(35) == 9227465);
    lemma_fib_monotonic(n, 35);
}

/// Computes the `n`-th Fibonacci number by direct double recursion, with no
/// memoization: the exponential cost is the point of the benchmark.
pub fn fibonacci(n: u32) -> (r: u32)
    requires
        fib(n as nat) <= u32::MAX,
    ensures
        r == fib(n as nat),
    decreases n,
{
    if n == 0 {
        return 0;
    }
    if n == 1 {
        return 1;
    }
    fibonacci(n - 1) + fibonacci(n - 2)
}

} // verus!
