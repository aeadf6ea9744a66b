use std::collections::HashMap;
use vstd::prelude::*;

verus! {

broadcast use vstd::std_specs::hash::group_hash_axioms;

/// The Fibonacci numbers, with `fib_of(0) == 0` and `fib_of(1) == 1`.
pub open spec fn fib_of(n: int) -> int
    decreases n,
{
    if n <= 0 {
        0
    } else if n == 1 {
        1
    } else {
        fib_of(n - 1) + fib_of(n - 2)
    }
}

/// Every entry of a memo table holds the Fibonacci number of its key.
pub open spec fn memo_sound(d: Map<i32, i32>) -> bool {
    forall|k: i32| #[trigger] d.contains_key(k) ==> d[k] as int == fib_of(k as int)
}

proof fn lemma_fib_monotone(a: int, b: int)
    requires
        0 <= a <= b,
    ensures
        fib_of(a) <= fib_of(b),
        fib_of(a) >= 0,
    decreases b,
{
    if b > 1 {
        lemma_fib_monotone(0, b - 1);
        lemma_fib_monotone(0, b - 2);
        if a < b {
            lemma_fib_monotone(a, b - 1);
        }
    }
}

/// `fib_of(46)`, reached one step at a time from the two base cases.
proof fn lemma_fib_46()
    ensures
        fib_of(46) == 1836311903,
{
    assert(fib_of(0) == 0);
    assert(fib_of(1) == 1);
    assert(fib_of(2) == 1);
    assert(fib_of(3) == 2);
    assert(fib_of(4) == 3);
    assert(fib_of(5) == 5);
    assert(fib_of(6) == 8);
    assert(fib_of(7) == 13);
    assert(fib_of(8) == 21);
    assert(fib_of(9) == 34);
    assert(fib_of(10) == 55);
    assert(fib_of(11) == 89);
    assert(fib_of(12) == 144);
    assert(fib_of(13) == 233);
    assert(fib_of(14) == 377);
    assert(fib_of(15) == 610);
    assert(fib_of(16) == 987);
    assert(fib_of(17) == 1597);
    assert(fib_of(18) == 2584);
    assert(fib_of(19) == 4181);
    assert(fib_of(20) == 6765);
    assert(fib_of(21) == 10946);
    assert(fib_of(22) == 17711);
    assert(fib_of(23) == 28657);
    assert(fib_of(24) == 46368);
    assert(fib_of(25) == 75025);
    assert(fib_of(26) == 121393);
    assert(fib_of(27) == 196418);
    assert(fib_of(28) == 317811);
    assert(fib_of(29) == 514229);
    assert(fib_of(30) == 832040);
    assert(fib_of(31) == 1346269);
    assert(fib_of(32) == 2178309);
    assert(fib_of(33) == 3524578);
    assert(fib_of(34) == 5702887);
    assert(fib_of(35) == 9227465);
    assert(fib_of(36) == 14930352);
    assert(fib_of(37) == 24157817);
    assert(fib_of(38) == 39088169);
    assert(fib_of(39) == 63245986);
    assert(fib_of(40) == 102334155);
    assert(fib_of(41) == 165580141);
    assert(fib_of(42) == 267914296);
    assert(fib_of(43) == 433494437);
    assert(fib_of(44) == 701408733);
    assert(fib_of(45) == 1134903170);
    assert(fib_of(46) == 1836311903);
}

/// The `n`th Fibonacci number, using and extending the memo table `d`.
/// `fib_of(46)` is the largest Fibonacci number an `i32` holds.
pub fn fib(n: i32, d: &mut HashMap<i32, i32>) -> (r: i32)
    requires
        0 <= n <= 46,
        memo_sound(old(d)@),
    ensures
        r as int == fib_of(n as int),
        memo_sound(final(d)@),
    decreases n,
{
    if n == 0 {
        0
    } else if n == 1 {
        1
    } else {
        if d.contains_key(&n) {
            *d.get(&n).unwrap()
        } else {
            let a = fib(n - 1, d);
            let b = fib(n - 2, d);
            proof {
                lemma_fib_monotone(n as int, 46);
                lemma_fib_46();
            }
            let m = a + b;
            d.insert(n, m);
            m
        }
    }
}

} // verus!
