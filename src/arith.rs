use vstd::prelude::*;

use core::cmp::Ordering;

verus! {

/// Floor division and the non-negative remainder of `x` by a positive `m`.
pub fn floor_div_mod(x: i128, m: i128) -> (r: (i128, i128))
    requires
        m > 0,
    ensures
        r.0 == x / m,
        r.1 == x % m,
{
    if x >= 0 {
        let q: u128 = x as u128 / m as u128;
        let rem: u128 = x as u128 % m as u128;
        proof {
            vstd::arithmetic::div_mod::lemma_fundamental_div_mod(x as int, m as int);
            assert(q <= x) by (nonlinear_arith)
                requires
                    q == (x as int) / (m as int),
                    x >= 0,
                    m > 0,
            ;
        }
        (q as i128, rem as i128)
    } else {
        let k: u128 = (-(x + 1)) as u128;
        let q: u128 = k / m as u128;
        let rem: u128 = k % m as u128;
        proof {
            let mi = m as int;
            vstd::arithmetic::div_mod::lemma_fundamental_div_mod(k as int, mi);
            assert(k as int == q * mi + rem as int) by (nonlinear_arith)
                requires
                    k as int == mi * ((k as int) / mi) + (k as int) % mi,
                    q as int == (k as int) / mi,
                    rem as int == (k as int) % mi,
            ;
            assert(x == (-(q as int) - 1) * mi + (mi - 1 - rem as int)) by (nonlinear_arith)
                requires
                    k as int == q * mi + rem as int,
                    x == -(k as int) - 1,
            ;
            vstd::arithmetic::div_mod::lemma_fundamental_div_mod_converse(
                x as int,
                mi,
                -(q as int) - 1,
                mi - 1 - rem as int,
            );
            assert(q <= k) by (nonlinear_arith)
                requires
                    q == (k as int) / mi,
                    mi > 0,
            ;
        }
        (-(q as i128) - 1, m - 1 - rem as i128)
    }
}

/// The lexicographic order of two sequences of one length.
pub open spec fn lex_cmp(a: Seq<i64>, b: Seq<i64>) -> Ordering
    decreases a.len(),
{
    if a.len() == 0 || b.len() == 0 {
        Ordering::Equal
    } else if a[0] < b[0] {
        Ordering::Less
    } else if a[0] > b[0] {
        Ordering::Greater
    } else {
        lex_cmp(a.drop_first(), b.drop_first())
    }
}

/// A sequence compares equal to itself.
pub proof fn lemma_lex_cmp_equal(s: Seq<i64>)
    ensures
        lex_cmp(s, s) == Ordering::Equal,
    decreases s.len(),
{
    if s.len() > 0 {
        lemma_lex_cmp_equal(s.drop_first());
    }
}

/// Compares two sequences of one length lexicographically.
pub fn compare_lex(a: &Vec<i64>, b: &Vec<i64>) -> (r: Ordering)
    requires
        a@.len() == b@.len(),
    ensures
        r == lex_cmp(a@, b@),
{
    let n = a.len();
    assert(a@.skip(0) == a@);
    assert(b@.skip(0) == b@);
    let mut i: usize = 0;
    while i < n
        invariant
            n == a@.len(),
            n == b@.len(),
            i <= n,
            lex_cmp(a@, b@) == lex_cmp(a@.skip(i as int), b@.skip(i as int)),
        decreases n - i,
    {
        proof {
            assert(a@.skip(i as int).drop_first() == a@.skip(i as int + 1));
            assert(b@.skip(i as int).drop_first() == b@.skip(i as int + 1));
            assert(a@.skip(i as int)[0] == a@[i as int]);
            assert(b@.skip(i as int)[0] == b@[i as int]);
        }
        if a[i] < b[i] {
            return Ordering::Less;
        }
        if a[i] > b[i] {
            return Ordering::Greater;
        }
        i = i + 1;
    }
    assert(a@.skip(n as int).len() == 0);
    Ordering::Equal
}

} // verus!
