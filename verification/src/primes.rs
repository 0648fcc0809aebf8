//! An incrementally extended table of prime numbers.
//!
//! The table holds every prime strictly below a high-water mark `covered`,
//! in increasing order, and never shrinks.  Extension resumes after the
//! largest known prime, testing odd candidates by trial division against
//! the primes already found, up to half of the candidate.

use vstd::arithmetic::div_mod::{
    lemma_fundamental_div_mod, lemma_mod_add_multiples_vanish, lemma_mod_multiples_basic,
};
use vstd::prelude::*;

use crate::errors::EngineError;

verus! {

/// A number is prime when it is at least 2 and nothing between 2 and
/// itself divides it.
pub open spec fn is_prime(n: int) -> bool {
    n >= 2 && forall|d: int| 2 <= d < n ==> #[trigger] (n % d) != 0
}

/// `p` is the first prime after `n`: prime, above `n`, with nothing prime
/// in between.
pub open spec fn is_next_prime_after(n: int, p: int) -> bool {
    &&& is_prime(p)
    &&& p > n
    &&& forall|q: int| n < q < p ==> !(#[trigger] is_prime(q))
}

/// There is at most one first prime after `n`.
pub proof fn lemma_next_prime_after_unique(n: int, p1: int, p2: int)
    requires
        is_next_prime_after(n, p1),
        is_next_prime_after(n, p2),
    ensures
        p1 == p2,
{
}

/// All primes strictly below `b`, in increasing order.
pub open spec fn primes_upto(b: int) -> Seq<u64>
    decreases b,
{
    if b <= 2 {
        Seq::empty()
    } else if is_prime(b - 1) {
        primes_upto(b - 1).push((b - 1) as u64)
    } else {
        primes_upto(b - 1)
    }
}

/// The sequence of all primes below `b` consists of primes below `b`,
/// is strictly increasing, and misses no prime below `b`.
pub proof fn lemma_primes_upto_props(b: int)
    requires
        b <= u64::MAX + 1,
    ensures
        forall|i: int|
            0 <= i < primes_upto(b).len() ==> 2 <= #[trigger] primes_upto(b)[i]
                && primes_upto(b)[i] < b && is_prime(primes_upto(b)[i] as int),
        forall|i: int, j: int|
            0 <= i < j < primes_upto(b).len() ==> primes_upto(b)[i] < primes_upto(b)[j],
        forall|p: int|
            2 <= p < b && is_prime(p) ==> exists|i: int|
                0 <= i < primes_upto(b).len() && primes_upto(b)[i] == p,
    decreases b,
{
    if b > 2 {
        lemma_primes_upto_props(b - 1);
        let prev = primes_upto(b - 1);
        let cur = primes_upto(b);
        if is_prime(b - 1) {
            assert(cur == prev.push((b - 1) as u64));
            assert forall|p: int| 2 <= p < b && is_prime(p) implies exists|i: int|
                0 <= i < cur.len() && cur[i] == p by {
                if p < b - 1 {
                    let i = choose|i: int| 0 <= i < prev.len() && prev[i] == p;
                    assert(cur[i] == p);
                } else {
                    assert(cur[cur.len() - 1] == p);
                }
            }
        } else {
            assert forall|p: int| 2 <= p < b && is_prime(p) implies exists|i: int|
                0 <= i < cur.len() && cur[i] == p by {
                assert(p < b - 1);
            }
        }
    }
}

/// If no number in `[a, b)` is prime, the primes below `b` are exactly the
/// primes below `a`.
pub proof fn lemma_primes_upto_agree(a: int, b: int)
    requires
        2 <= a <= b,
        forall|q: int| a <= q < b ==> !is_prime(q),
    ensures
        primes_upto(b) == primes_upto(a),
    decreases b,
{
    if a < b {
        lemma_primes_upto_agree(a, b - 1);
        assert(!is_prime(b - 1));
    }
}

/// Every number that is at least 2 has a prime factor.
proof fn lemma_has_prime_factor(n: int) -> (q: int)
    requires
        n >= 2,
    ensures
        is_prime(q) && 2 <= q <= n && n % q == 0,
    decreases n,
{
    if is_prime(n) {
        lemma_mod_multiples_basic(1, n);
        assert(n % n == 0) by {
            assert(1 * n == n) by (nonlinear_arith);
        }
        n
    } else {
        assert(exists|d: int| 2 <= d < n && #[trigger] (n % d) == 0);
        let d = choose|d: int| 2 <= d < n && #[trigger] (n % d) == 0;
        let q = lemma_has_prime_factor(d);
        lemma_fundamental_div_mod(n, d);
        lemma_fundamental_div_mod(d, q);
        assert(n == q * ((d / q) * (n / d))) by (nonlinear_arith)
            requires
                n == d * (n / d) + n % d,
                n % d == 0,
                d == q * (d / q) + d % q,
                d % q == 0,
        ;
        lemma_mod_multiples_basic((d / q) * (n / d), q);
        q
    }
}

/// A composite number has a prime factor no larger than half of itself.
proof fn lemma_composite_has_small_factor(c: int)
    requires
        c >= 2,
        !is_prime(c),
    ensures
        exists|q: int| is_prime(q) && 2 <= q && 2 * q <= c && #[trigger] (c % q) == 0,
{
    assert(exists|d: int| 2 <= d < c && #[trigger] (c % d) == 0);
    let d = choose|d: int| 2 <= d < c && #[trigger] (c % d) == 0;
    let q = lemma_has_prime_factor(d);
    lemma_fundamental_div_mod(c, d);
    lemma_fundamental_div_mod(d, q);
    assert(c == q * ((d / q) * (c / d))) by (nonlinear_arith)
        requires
            c == d * (c / d) + c % d,
            c % d == 0,
            d == q * (d / q) + d % q,
            d % q == 0,
    ;
    lemma_mod_multiples_basic((d / q) * (c / d), q);
    lemma_fundamental_div_mod(c, q);
    let k = c / q;
    assert(2 * q <= c) by (nonlinear_arith)
        requires
            c == q * k + c % q,
            c % q == 0,
            2 <= q,
            q <= d < c,
    ;
    assert(c % q == 0);
}

/// The incrementally extended prime table: every prime strictly below
/// `covered` is in `primes`, in increasing order, and nothing else is.
pub struct PrimeTable {
    pub primes: Vec<u64>,
    pub covered: u64,
}

impl PrimeTable {
    /// The table is exactly the sequence of primes below its high-water mark.
    pub open spec fn wf(self) -> bool {
        self.primes@ == primes_upto(self.covered as int)
    }

    /// An empty table, covering nothing.
    pub fn new() -> (t: PrimeTable)
        ensures
            t.wf(),
            t.covered == 0,
            t.primes@ == Seq::<u64>::empty(),
    {
        PrimeTable { primes: Vec::new(), covered: 0 }
    }

    /// Ensures every prime strictly below `upper_bound` is in the table.
    /// A bound at or below the covered mark is a no-op; the covered mark
    /// never moves backwards.
    pub fn extend_to(&mut self, upper_bound: u64)
        requires
            old(self).wf(),
            upper_bound < u64::MAX,
        ensures
            final(self).wf(),
            final(self).covered == (if upper_bound > old(self).covered {
                upper_bound
            } else {
                old(self).covered
            }),
            final(self).primes@ == primes_upto(final(self).covered as int),
    {
        if upper_bound <= self.covered {
            return ;
        }
        proof {
            lemma_primes_upto_props(self.covered as int);
        }
        let n = self.primes.len();
        let mut c: u64;
        if n == 0 {
            c = 2;
            assert(self.primes@ == primes_upto(2));
        } else {
            let p = self.primes[n - 1];
            c = if p == 2 {
                3
            } else {
                p + 2
            };
            proof {
                lemma_mod_add_multiples_vanish(p as int, 2);
                assert(is_prime(p as int) && p < self.covered);
                if p != 2 {
                    // p is an odd prime, so p + 1 is even and composite.
                    assert(p % 2 != 0);
                    assert((p + 1) % 2 == 0);
                    assert(!is_prime(p as int + 1));
                }
                // No prime lies strictly between p and c: p is the largest
                // entry, and the table misses no prime below `covered`.
                assert forall|q: int| p < q < c implies !is_prime(q) by {
                    assert(c == p + 2 ==> !is_prime(p as int + 1));
                }
                if c >= self.covered {
                    assert forall|q: int| self.covered <= q < c implies !is_prime(q) by {
                        assert(q == p + 1 ==> !is_prime(q));
                    }
                    lemma_primes_upto_agree(self.covered as int, c as int);
                } else {
                    assert forall|q: int| c <= q < self.covered implies !is_prime(q) by {
                        if is_prime(q) {
                            let i = choose|i: int|
                                0 <= i < self.primes@.len() && self.primes@[i] == q;
                            assert(self.primes@[i] <= self.primes@[self.primes@.len() - 1]);
                        }
                    }
                    lemma_primes_upto_agree(c as int, self.covered as int);
                }
            }
        }
        while c < upper_bound
            invariant
                self.primes@ == primes_upto(c as int),
                2 <= c,
                c == 2 || c % 2 == 1,
                c <= upper_bound + 1,
                upper_bound < u64::MAX,
                forall|k: int|
                    0 <= k < self.primes@.len() ==> #[trigger] self.primes@[k] < upper_bound,
            decreases upper_bound + 1 - c,
        {
            let divisible = has_small_divisor(&self.primes, c);
            proof {
                if !divisible {
                    assert(primes_upto(c as int + 1) == primes_upto(c as int).push(c));
                } else {
                    assert(primes_upto(c as int + 1) == primes_upto(c as int));
                }
            }
            if !divisible {
                self.primes.push(c);
            }
            let next = if c == 2 {
                3
            } else {
                c + 2
            };
            proof {
                if c != 2 {
                    lemma_mod_add_multiples_vanish(c as int, 2);
                    assert((c + 1) % 2 == 0);
                    assert(!is_prime(c as int + 1));
                    assert forall|q: int| c + 1 <= q < c + 2 implies !is_prime(q) by {
                        assert(q == c + 1);
                    }
                    lemma_primes_upto_agree(c as int + 1, c as int + 2);
                }
            }
            c = next;
        }
        proof {
            lemma_primes_upto_props(c as int);
            if upper_bound >= 2 {
                assert forall|q: int| upper_bound <= q < c implies !is_prime(q) by {
                    if is_prime(q) {
                        let i = choose|i: int|
                            0 <= i < primes_upto(c as int).len() && primes_upto(c as int)[i] == q;
                        assert(self.primes@[i] < c);
                        assert(self.primes@[i] < upper_bound);
                    }
                }
                lemma_primes_upto_agree(upper_bound as int, c as int);
            } else {
                assert(primes_upto(upper_bound as int) == Seq::<u64>::empty());
                assert(self.primes@.len() == 0);
                assert(self.primes@ == primes_upto(upper_bound as int));
            }
        }
        self.covered = upper_bound;
    }

    /// The smallest table entry strictly greater than `n`, which is the
    /// smallest prime after `n` whenever the table reaches past it.  The
    /// query fails exactly when no prime lies between `n` and the covered
    /// mark: the caller must extend the table first.
    pub fn next_prime_after(&self, n: u64) -> (r: Result<u64, EngineError>)
        requires
            self.wf(),
        ensures
            match r {
                Ok(p) => p > n && p < self.covered && is_next_prime_after(n as int, p as int),
                Err(e) => e == EngineError::Precondition && forall|q: int|
                    n < q < self.covered ==> !(#[trigger] is_prime(q)),
            },
    {
        proof {
            lemma_primes_upto_props(self.covered as int);
        }
        let len = self.primes.len();
        let mut i: usize = 0;
        while i < len
            invariant
                self.wf(),
                len == self.primes@.len(),
                i <= len,
                forall|j: int| 0 <= j < i ==> #[trigger] self.primes@[j] <= n,
            decreases len - i,
        {
            let p = self.primes[i];
            if p > n {
                proof {
                    lemma_primes_upto_props(self.covered as int);
                    assert forall|q: int| n < q < p implies !is_prime(q) by {
                        if is_prime(q) {
                            let j = choose|j: int|
                                0 <= j < self.primes@.len() && self.primes@[j] == q;
                            // q sits before p in the table, so q <= n.
                            assert(j < i);
                        }
                    }
                }
                return Ok(p);
            }
            i += 1;
        }
        proof {
            assert forall|q: int| n < q < self.covered implies !is_prime(q) by {
                if is_prime(q) {
                    let j = choose|j: int| 0 <= j < self.primes@.len() && self.primes@[j] == q;
                    assert(self.primes@[j] <= n);
                }
            }
        }
        Err(EngineError::Precondition)
    }
}

/// Whether some prime at most half of `c` divides `c` — by the trial
/// division the table affords, this decides compositeness of `c` outright.
fn has_small_divisor(primes: &Vec<u64>, c: u64) -> (r: bool)
    requires
        primes@ == primes_upto(c as int),
        2 <= c,
    ensures
        r == !is_prime(c as int),
{
    let len = primes.len();
    let mut i: usize = 0;
    while i < len
        invariant
            primes@ == primes_upto(c as int),
            2 <= c,
            len == primes@.len(),
            i <= len,
            forall|j: int| 0 <= j < i ==> (c as int) % (#[trigger] primes@[j] as int) != 0,
        decreases len - i,
    {
        let q = primes[i];
        proof {
            lemma_primes_upto_props(c as int);
            assert(primes@[i as int] == primes_upto(c as int)[i as int]);
            assert(2 <= q);
        }
        if c % q == 0 {
            proof {
                lemma_primes_upto_props(c as int);
                assert(2 <= q < c);
                assert(!is_prime(c as int));
            }
            return true;
        }
        if q > c / 2 {
            proof {
                lemma_primes_upto_props(c as int);
                lemma_fundamental_div_mod(c as int, 2);
                assert(2 * q > c);
                if !is_prime(c as int) {
                    lemma_composite_has_small_factor(c as int);
                    let f = choose|f: int|
                        is_prime(f) && 2 <= f && 2 * f <= c && #[trigger] (c as int % f) == 0;
                    let j = choose|j: int| 0 <= j < primes@.len() && primes@[j] == f;
                    assert(primes@[j] < primes@[i as int] || j >= i);
                    assert(j < i);
                    assert(false);
                }
            }
            return false;
        }
        i += 1;
    }
    proof {
        lemma_primes_upto_props(c as int);
        if !is_prime(c as int) {
            lemma_composite_has_small_factor(c as int);
            let f = choose|f: int|
                is_prime(f) && 2 <= f && 2 * f <= c && #[trigger] (c as int % f) == 0;
            let j = choose|j: int| 0 <= j < primes@.len() && primes@[j] == f;
            assert(false);
        }
    }
    false
}

/// Extension is idempotent: if `t1` came out of extending `t0` to `b`, and
/// `t2` out of extending `t1` to the same `b`, the second extension changed
/// nothing — neither the covered mark nor the sequence of primes.
pub proof fn lemma_extend_to_idempotent(t0: PrimeTable, t1: PrimeTable, t2: PrimeTable, b: u64)
    requires
        t1.wf(),
        t2.wf(),
        t1.covered == (if b > t0.covered {
            b
        } else {
            t0.covered
        }),
        t2.covered == (if b > t1.covered {
            b
        } else {
            t1.covered
        }),
    ensures
        t2.covered == t1.covered,
        t2.primes@ == t1.primes@,
{
}

/// A well-formed table is exactly the sieve below its covered mark: every
/// entry is a prime below the mark, the entries increase strictly, and no
/// prime below the mark is missing.
pub proof fn lemma_table_exact(t: PrimeTable)
    requires
        t.wf(),
    ensures
        forall|i: int|
            0 <= i < t.primes@.len() ==> is_prime(#[trigger] t.primes@[i] as int)
                && t.primes@[i] < t.covered,
        forall|i: int, j: int| 0 <= i < j < t.primes@.len() ==> t.primes@[i] < t.primes@[j],
        forall|p: int|
            2 <= p < t.covered && is_prime(p) ==> exists|i: int|
                0 <= i < t.primes@.len() && t.primes@[i] == p,
{
    lemma_primes_upto_props(t.covered as int);
}

/// The table's contents are a function of its covered mark alone: two
/// well-formed tables covering the same bound hold the same primes.
pub proof fn lemma_table_deterministic(t1: PrimeTable, t2: PrimeTable)
    requires
        t1.wf(),
        t2.wf(),
        t1.covered == t2.covered,
    ensures
        t1.primes@ == t2.primes@,
{
}

} // verus!
