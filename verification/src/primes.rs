//! The dataset builder: the sorted sequence of primes up to a bound,
//! computed once by trial division.

use vstd::prelude::*;

verus! {

pub open spec fn divides(d: int, n: int) -> bool {
    n % d == 0
}

/// An integer `n` is kept by the builder iff `n >= 2` and no integer `i`
/// with `2 <= i` and `i * i <= n` divides `n` evenly: trial division up to
/// the square root, written without naming the root itself.
pub open spec fn is_prime_spec(n: int) -> bool {
    n >= 2 && forall|i: int| 2 <= i && i * i <= n ==> !(#[trigger] divides(i, n))
}

/// The sequence of all integers in `[0, bound]` that pass `is_prime_spec`,
/// in increasing order.
pub open spec fn primes_upto(bound: int) -> Seq<u32>
    decreases bound + 1,
{
    if bound < 0 {
        Seq::empty()
    } else if is_prime_spec(bound) {
        primes_upto(bound - 1).push(#[verifier::truncate] (bound as u32))
    } else {
        primes_upto(bound - 1)
    }
}

pub open spec fn strictly_increasing(s: Seq<u32>) -> bool {
    forall|a: int, b: int| 0 <= a < b < s.len() ==> s[a] < s[b]
}

/// The dataset produced for any bound is strictly increasing, every element
/// passes trial division up to its square root, every element lies in
/// `[0, bound]`, and every integer in `[0, bound]` that passes trial
/// division appears in it.
pub proof fn lemma_primes_upto_correct(bound: int)
    requires
        bound <= u32::MAX,
    ensures
        strictly_increasing(primes_upto(bound)),
        forall|a: int|
            0 <= a < primes_upto(bound).len() ==> is_prime_spec(
                #[trigger] primes_upto(bound)[a] as int,
            ) && primes_upto(bound)[a] <= bound,
        forall|p: int| 0 <= p <= bound && is_prime_spec(p) ==> primes_upto(bound).contains(p as u32),
    decreases bound + 1,
{
    if bound < 0 {
    } else {
        lemma_primes_upto_correct(bound - 1);
        let prev = primes_upto(bound - 1);
        let cur = primes_upto(bound);
        if is_prime_spec(bound) {
            assert(cur == prev.push(bound as u32));
            assert(cur[cur.len() - 1] == bound as u32);
            assert forall|a: int, b: int| 0 <= a < b < cur.len() implies cur[a] < cur[b] by {
                if b < cur.len() - 1 {
                    assert(prev[a] < prev[b]);
                } else {
                    assert(cur[a] == prev[a] && prev[a] <= bound - 1);
                }
            }
            assert forall|p: int| 0 <= p <= bound && is_prime_spec(p) implies cur.contains(
                p as u32,
            ) by {
                if p == bound {
                    assert(cur[cur.len() - 1] == p as u32);
                } else {
                    assert(prev.contains(p as u32));
                    let idx = choose|i: int| 0 <= i < prev.len() && prev[i] == p as u32;
                    assert(cur[idx] == p as u32);
                }
            }
        } else {
            assert(cur == prev);
            assert forall|p: int| 0 <= p <= bound && is_prime_spec(p) implies cur.contains(
                p as u32,
            ) by {
                assert(p < bound);
                assert(prev.contains(p as u32));
            }
        }
    }
}

/// Stopping trial division at the square root loses nothing: an `n >= 2`
/// has no divisor `i` with `i * i <= n` iff it has no divisor in `[2, n)`
/// at all, since a divisor pair `n == d * e` always puts the smaller of
/// the two below the root.
pub proof fn lemma_trial_division_is_primality(n: int)
    requires
        n >= 2,
    ensures
        is_prime_spec(n) <==> forall|d: int| 2 <= d < n ==> !(#[trigger] divides(d, n)),
{
    if forall|d: int| 2 <= d < n ==> !(#[trigger] divides(d, n)) {
        assert forall|i: int| 2 <= i && i * i <= n implies !(#[trigger] divides(i, n)) by {
            assert(i < n) by (nonlinear_arith)
                requires
                    2 <= i,
                    i * i <= n,
            ;
        }
        assert(is_prime_spec(n));
    }
    if is_prime_spec(n) {
        assert forall|d: int| 2 <= d < n implies !(#[trigger] divides(d, n)) by {
            if divides(d, n) {
                let e = n / d;
                vstd::arithmetic::div_mod::lemma_fundamental_div_mod(n, d);
                assert(n == d * e);
                assert(2 <= e) by (nonlinear_arith)
                    requires
                        n == d * e,
                        2 <= d,
                        d < n,
                        2 <= n,
                ;
                if d * d <= n {
                    assert(!divides(d, n));
                } else {
                    assert(e * e <= n) by (nonlinear_arith)
                        requires
                            n == d * e,
                            d * d > n,
                            2 <= d,
                            2 <= e,
                    ;
                    vstd::arithmetic::div_mod::lemma_fundamental_div_mod_converse(n, e, d, 0);
                    assert(divides(e, n));
                    assert(!divides(e, n));
                }
            }
        }
    }
}

/// Trial division: `n` is kept iff it is at least 2 and has no divisor in
/// `[2, floor(sqrt(n))]`.
pub fn is_prime(n: u32) -> (r: bool)
    ensures
        r == is_prime_spec(n as int),
{
    if n < 2 {
        return false;
    }
    let mut i: u32 = 2;
    loop
        invariant_except_break
            2 <= i,
            n >= 2,
            forall|j: int| 2 <= j < i ==> !(#[trigger] divides(j, n as int)),
        ensures
            2 <= i,
            (i as int) * (i as int) > n as int,
            forall|j: int| 2 <= j < i ==> !(#[trigger] divides(j, n as int)),
        decreases n - i,
    {
        proof {
            assert((i as int) * (i as int) < 0x1_0000_0000_0000_0000) by (nonlinear_arith)
                requires
                    i < 0x1_0000_0000,
            ;
        }
        let sq: u64 = (i as u64) * (i as u64);
        if sq > n as u64 {
            break;
        }
        proof {
            assert(2 * (i as int) <= (i as int) * (i as int)) by (nonlinear_arith)
                requires
                    2 <= i as int,
            ;
        }
        if n % i == 0 {
            assert(!is_prime_spec(n as int)) by {
                assert(divides(i as int, n as int));
                assert((i as int) * (i as int) <= n as int);
            }
            return false;
        }
        proof {
            assert(!divides(i as int, n as int));
        }
        i = i + 1;
    }
    assert forall|k: int| 2 <= k && k * k <= n as int implies !(#[trigger] divides(
        k,
        n as int,
    )) by {
        assert(k < i) by (nonlinear_arith)
            requires
                k * k <= n as int,
                (i as int) * (i as int) > n as int,
                2 <= k,
                2 <= i,
        ;
    }
    true
}

/// The immutable dataset: an increasing sequence of primes.
#[derive(Debug, Clone)]
pub struct Primes {
    primes: Vec<u32>,
}

impl Primes {
    /// Every integer in `[0, max]` that passes trial division, in order.
    pub fn build(max: u32) -> (r: Self)
        ensures
            r@ == primes_upto(max as int),
    {
        let mut primes: Vec<u32> = Vec::new();
        let mut n: u64 = 0;
        assert(primes@ =~= primes_upto(-1));
        while n <= max as u64
            invariant
                n <= max as u64 + 1,
                primes@ == primes_upto(n - 1),
            decreases max as u64 + 1 - n,
        {
            if is_prime(n as u32) {
                primes.push(n as u32);
            }
            assert(primes@ =~= primes_upto(n as int));
            n = n + 1;
        }
        Self { primes }
    }

    /// Wraps an already-decoded sequence without re-checking sortedness or
    /// primality: the binary dataset is produced by a trusted build step.
    pub fn from_unchecked(primes: Vec<u32>) -> (r: Self)
        ensures
            r@ == primes@,
    {
        Self { primes }
    }

    pub fn primes(&self) -> (r: &Vec<u32>)
        ensures
            r@ == self@,
    {
        &self.primes
    }
}

impl View for Primes {
    type V = Seq<u32>;

    closed spec fn view(&self) -> Seq<u32> {
        self.primes@
    }
}

} // verus!
