//! Little-endian 64-bit word vectors and their natural-number values.
//!
//! Every field element in this crate is carried as a vector of machine
//! words; this module gives the word vectors their mathematical meaning and
//! the comparison routines the field types are built on.

use vstd::prelude::*;
use vstd::arithmetic::power2::*;

verus! {

/// The value of a little-endian sequence of 64-bit words:
/// `s[0] + 2^64 * s[1] + 2^128 * s[2] + ...`.
pub open spec fn word_value(s: Seq<u64>) -> nat
    decreases s.len(),
{
    if s.len() == 0 {
        0
    } else {
        (s[0] + pow2(64) * word_value(s.skip(1))) as nat
    }
}

/// A word vector's value is bounded by two to the number of its bits.
pub proof fn lemma_word_value_bound(s: Seq<u64>)
    ensures
        word_value(s) < pow2(64 * s.len()),
    decreases s.len(),
{
    lemma2_to64();
    if s.len() == 0 {
    } else {
        lemma_word_value_bound(s.skip(1));
        lemma_pow2_adds(64, 64 * (s.len() - 1) as nat);
        let t = word_value(s.skip(1));
        assert(s[0] < pow2(64));
        assert(pow2(64) * (t + 1) <= pow2(64) * pow2(64 * (s.len() - 1) as nat))
            by (nonlinear_arith)
            requires
                t + 1 <= pow2(64 * (s.len() - 1) as nat),
                pow2(64) > 0,
        ;
        assert(s[0] + pow2(64) * t < pow2(64) * (t + 1)) by (nonlinear_arith)
            requires
                s[0] < pow2(64),
        ;
    }
}

/// Splitting a word vector at position `k` splits its value.
pub proof fn lemma_word_value_split(s: Seq<u64>, k: int)
    requires
        0 <= k <= s.len(),
    ensures
        word_value(s) == word_value(s.take(k)) + pow2(64 * k as nat) * word_value(s.skip(k)),
    decreases k,
{
    lemma2_to64();
    if k == 0 {
        assert(s.take(0) =~= Seq::<u64>::empty());
        assert(s.skip(0) =~= s);
        assert(word_value(s.take(k)) == 0);
        assert(pow2(64 * k as nat) == 1);
        assert(word_value(s) == word_value(s.take(k)) + pow2(64 * k as nat) * word_value(s.skip(k)));
    } else {
        lemma_word_value_split(s.skip(1), k - 1);
        assert(s.skip(1).take(k - 1) =~= s.take(k).skip(1));
        assert(s.skip(1).skip(k - 1) =~= s.skip(k));
        lemma_pow2_adds(64, 64 * (k - 1) as nat);
        let a = word_value(s.take(k).skip(1));
        let b = word_value(s.skip(k));
        let c = pow2(64 * (k - 1) as nat);
        assert(word_value(s.skip(1)) == a + c * b);
        assert(s.take(k).len() == k);
        assert(s.take(k)[0] == s[0]);
        assert(word_value(s.take(k)) == s[0] + pow2(64) * a);
        assert(word_value(s) == s[0] + pow2(64) * word_value(s.skip(1)));
        assert(64 + 64 * (k - 1) as nat == 64 * k as nat);
        assert(pow2(64 * k as nat) == pow2(64) * c);
        assert(pow2(64) * (a + c * b) == pow2(64) * a + (pow2(64) * c) * b)
            by (nonlinear_arith);
    }
}

/// A word vector's value decomposes around any single position.
pub proof fn lemma_word_value_at(s: Seq<u64>, k: int)
    requires
        0 <= k < s.len(),
    ensures
        word_value(s) == word_value(s.take(k)) + pow2(64 * k as nat) * s[k]
            + pow2(64 * (k + 1) as nat) * word_value(s.skip(k + 1)),
{
    lemma_word_value_split(s, k);
    assert(s.skip(k).skip(1) =~= s.skip(k + 1));
    assert(s.skip(k)[0] == s[k]);
    let t = word_value(s.skip(k + 1));
    assert(word_value(s.skip(k)) == s[k] + pow2(64) * t);
    lemma_pow2_adds(64 * k as nat, 64);
    assert(pow2(64 * k as nat) * (s[k] + pow2(64) * t)
        == pow2(64 * k as nat) * s[k] + (pow2(64 * k as nat) * pow2(64)) * t)
        by (nonlinear_arith);
}

/// If two equally long vectors agree above position `i` and differ at `i`,
/// the one with the smaller word there has the smaller value.
proof fn lemma_word_value_cmp_at(a: Seq<u64>, b: Seq<u64>, i: int)
    requires
        a.len() == b.len(),
        0 <= i < a.len(),
        a[i] < b[i],
        forall|j: int| i < j < a.len() ==> a[j] == b[j],
    ensures
        word_value(a) < word_value(b),
{
    lemma_word_value_at(a, i);
    lemma_word_value_at(b, i);
    assert(a.skip(i + 1) =~= b.skip(i + 1));
    lemma_word_value_bound(a.take(i));
    lemma_pow2_pos(64 * i as nat);
    assert(64 * (i as nat) == 64 * i);
    let p = pow2(64 * i as nat);
    let alo = word_value(a.take(i));
    let blo = word_value(b.take(i));
    assert(alo + p * a[i] < blo + p * b[i]) by (nonlinear_arith)
        requires
            alo < p,
            a[i] + 1 <= b[i],
            p > 0,
            blo >= 0,
    ;
}

/// Compares the values of two equally long word vectors.
pub fn words_lt(a: &Vec<u64>, b: &Vec<u64>) -> (r: bool)
    requires
        a@.len() == b@.len(),
    ensures
        r == (word_value(a@) < word_value(b@)),
{
    let n = a.len();
    let mut i: usize = n;
    while i > 0
        invariant
            i <= n,
            n == a@.len(),
            b@.len() == n,
            forall|j: int| i <= j < n ==> a@[j] == b@[j],
        decreases i,
    {
        i = i - 1;
        if a[i] < b[i] {
            proof {
                lemma_word_value_cmp_at(a@, b@, i as int);
            }
            return true;
        }
        if a[i] > b[i] {
            proof {
                lemma_word_value_cmp_at(b@, a@, i as int);
            }
            return false;
        }
    }
    proof {
        assert(a@ =~= b@);
    }
    false
}

/// Copies a word vector.
pub fn clone_words(v: &Vec<u64>) -> (r: Vec<u64>)
    ensures
        r@ == v@,
{
    let mut out: Vec<u64> = Vec::new();
    let mut i: usize = 0;
    while i < v.len()
        invariant
            i <= v@.len(),
            out@ == v@.take(i as int),
        decreases v@.len() - i,
    {
        out.push(v[i]);
        proof {
            assert(out@ =~= v@.take(i + 1));
        }
        i = i + 1;
    }
    proof {
        assert(v@.take(v@.len() as int) =~= v@);
    }
    out
}

} // verus!
