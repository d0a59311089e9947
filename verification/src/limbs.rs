//! The limb encoder.
//!
//! A non-native field element (a coordinate on the key curve) is split into
//! two 192-bit limbs, each carried as an element of the native scalar
//! field, most significant limb first.  The same split is used for circuit
//! constants, for the public-input vector and by the host-side decoder, so
//! limb-wise equality between them holds exactly.

use vstd::prelude::*;
use vstd::arithmetic::power2::{pow2, lemma_pow2_pos, lemma_pow2_adds};
use vstd::arithmetic::div_mod::{lemma_fundamental_div_mod_converse, lemma_fundamental_div_mod};
use crate::words::{word_value, words_lt, lemma_word_value_split, lemma_word_value_at,
    lemma_word_value_bound};
use crate::fields::{FqElem, FrElem, q_nat, q_words, lemma_pow2_192_lt_r};
use crate::ApkError;

verus! {

/// The most significant 192-bit limb of a non-native value.
pub open spec fn limb_hi(v: nat) -> nat {
    v / pow2(192)
}

/// The least significant 192-bit limb of a non-native value.
pub open spec fn limb_lo(v: nat) -> nat {
    v % pow2(192)
}

/// The limbs of one non-native value, most significant first.
pub open spec fn limb_values_of(v: nat) -> Seq<nat> {
    seq![limb_hi(v), limb_lo(v)]
}

/// The concatenated limbs of a sequence of non-native values, in input
/// order.
pub open spec fn elems_limb_values(vals: Seq<nat>) -> Seq<nat>
    decreases vals.len(),
{
    if vals.len() == 0 {
        Seq::empty()
    } else {
        limb_values_of(vals[0]) + elems_limb_values(vals.skip(1))
    }
}

/// Appending a value appends its two limbs.
pub proof fn lemma_elems_limb_values_push(vals: Seq<nat>, v: nat)
    ensures
        elems_limb_values(vals.push(v)) == elems_limb_values(vals) + limb_values_of(v),
    decreases vals.len(),
{
    if vals.len() == 0 {
        assert(vals.push(v).skip(1) =~= Seq::<nat>::empty());
        assert(vals.push(v)[0] == v);
        assert(elems_limb_values(Seq::<nat>::empty()) =~= Seq::<nat>::empty());
        assert(elems_limb_values(vals.push(v)) =~= limb_values_of(v));
        assert(elems_limb_values(vals) + limb_values_of(v) =~= limb_values_of(v));
    } else {
        lemma_elems_limb_values_push(vals.skip(1), v);
        assert(vals.push(v).skip(1) =~= vals.skip(1).push(v));
        assert(vals.push(v)[0] == vals[0]);
        assert(limb_values_of(vals[0]) + (elems_limb_values(vals.skip(1)) + limb_values_of(v))
            =~= (limb_values_of(vals[0]) + elems_limb_values(vals.skip(1))) + limb_values_of(v));
    }
}

/// The round trip through the limb split: for every value in the
/// non-native field's range, the two limbs are in range for the native
/// field's 192-bit window and recombine to the value itself.
pub proof fn lemma_limb_round_trip(v: nat)
    requires
        v < pow2(384),
    ensures
        limb_hi(v) < pow2(192),
        limb_lo(v) < pow2(192),
        limb_lo(v) + pow2(192) * limb_hi(v) == v,
{
    lemma_pow2_pos(192);
    lemma_fundamental_div_mod(v as int, pow2(192) as int);
    lemma_pow2_adds(192, 192);
    assert(limb_hi(v) < pow2(192)) by (nonlinear_arith)
        requires
            v < pow2(192) * pow2(192),
            pow2(192) > 0,
            limb_hi(v) == v / pow2(192),
    ;
}

/// The non-native field's order is below the limb capacity: every element
/// fits the two-limb split.
pub proof fn lemma_q_fits_limbs()
    ensures
        q_nat() < pow2(384),
{
    lemma_word_value_bound(crate::fields::q_word_seq());
}

/// Decode after encode is the identity on the non-native field: the two
/// limbs of any element are in the 192-bit window, recombine to the
/// element itself, and that recombination passes the decoder's range
/// check.
pub proof fn lemma_encode_decode_id(v: nat)
    requires
        v < q_nat(),
    ensures
        limb_hi(v) < pow2(192),
        limb_lo(v) < pow2(192),
        limb_lo(v) + pow2(192) * limb_hi(v) == v,
{
    lemma_q_fits_limbs();
    lemma_limb_round_trip(v);
}

/// A four-word vector's value is below `2^192` exactly when its top word
/// is zero.
proof fn lemma_top_word_zero(s: Seq<u64>)
    requires
        s.len() == 4,
    ensures
        (word_value(s) < pow2(192)) <==> (s[3] == 0),
{
    lemma_word_value_at(s, 3);
    assert(s.skip(4) =~= Seq::<u64>::empty());
    assert(word_value(s.skip(4)) == 0);
    lemma_word_value_bound(s.take(3));
    lemma_pow2_pos(192);
    if s[3] == 0 {
        assert(word_value(s) == word_value(s.take(3)) + pow2(192) * 0 + pow2(256) * 0);
    } else {
        assert(pow2(192) * s[3] >= pow2(192)) by (nonlinear_arith)
            requires
                pow2(192) > 0,
                s[3] >= 1,
        ;
    }
}

/// A three-word prefix padded with a zero top word keeps its value.
proof fn lemma_padded_value(s: Seq<u64>)
    requires
        s.len() == 4,
        s[3] == 0,
    ensures
        word_value(s) == word_value(s.take(3)),
{
    lemma_word_value_at(s, 3);
    assert(s.skip(4) =~= Seq::<u64>::empty());
    assert(word_value(s) == word_value(s.take(3)) + pow2(192) * 0 + pow2(256) * 0);
}

/// Splits a non-native element into its two native limbs, most significant
/// first.
pub fn fq_limbs(x: &FqElem) -> (r: (FrElem, FrElem))
    requires
        x.wf(),
    ensures
        r.0.wf(),
        r.1.wf(),
        r.0.value() == limb_hi(x.value()),
        r.1.value() == limb_lo(x.value()),
{
    let hi_words: Vec<u64> = vec![x.words[3], x.words[4], x.words[5], 0];
    let lo_words: Vec<u64> = vec![x.words[0], x.words[1], x.words[2], 0];
    let hi = FrElem { words: hi_words };
    let lo = FrElem { words: lo_words };
    proof {
        let w = x.words@;
        lemma_word_value_split(w, 3);
        lemma_word_value_bound(w.take(3));
        lemma_pow2_pos(192);
        assert(w.take(3).len() == 3);
        assert(word_value(w.take(3)) < pow2(192));
        assert(x.value() == word_value(w.skip(3)) * pow2(192) + word_value(w.take(3)))
            by (nonlinear_arith)
            requires
                x.value() == word_value(w.take(3)) + pow2(192) * word_value(w.skip(3)),
        ;
        lemma_fundamental_div_mod_converse(
            x.value() as int,
            pow2(192) as int,
            word_value(w.skip(3)) as int,
            word_value(w.take(3)) as int,
        );
        assert(hi.words@.take(3) =~= w.skip(3));
        assert(lo.words@.take(3) =~= w.take(3));
        lemma_padded_value(hi.words@);
        lemma_padded_value(lo.words@);
        lemma_word_value_bound(w.skip(3));
        lemma_pow2_192_lt_r();
    }
    (hi, lo)
}

/// Encodes a sequence of non-native field elements into the flat sequence
/// of their native limbs, in input order, most significant limb of each
/// element first.
pub fn encode_elements(xs: &Vec<FqElem>) -> (r: Vec<FrElem>)
    requires
        forall|i: int| 0 <= i < xs@.len() ==> xs@[i].wf(),
    ensures
        r@.map_values(|f: FrElem| f.value())
            == elems_limb_values(xs@.map_values(|x: FqElem| x.value())),
        forall|i: int| 0 <= i < r@.len() ==> r@[i].wf(),
{
    let mut r: Vec<FrElem> = Vec::new();
    let mut i: usize = 0;
    while i < xs.len()
        invariant
            i <= xs@.len(),
            forall|j: int| 0 <= j < xs@.len() ==> xs@[j].wf(),
            forall|j: int| 0 <= j < r@.len() ==> r@[j].wf(),
            r@.map_values(|f: FrElem| f.value())
                == elems_limb_values(xs@.take(i as int).map_values(|x: FqElem| x.value())),
        decreases xs@.len() - i,
    {
        let (hi, lo) = fq_limbs(&xs[i]);
        r.push(hi);
        r.push(lo);
        proof {
            let vals = xs@.take(i as int).map_values(|x: FqElem| x.value());
            lemma_elems_limb_values_push(vals, xs@[i as int].value());
            assert(xs@.take(i + 1).map_values(|x: FqElem| x.value())
                =~= vals.push(xs@[i as int].value()));
            assert(r@.map_values(|f: FrElem| f.value())
                =~= elems_limb_values(vals) + limb_values_of(xs@[i as int].value()));
        }
        i = i + 1;
    }
    proof {
        assert(xs@.take(xs@.len() as int) =~= xs@);
    }
    r
}

/// Recombines the two native limbs of one non-native element.  Fails with
/// an encoding error when a limb overflows the 192-bit window or the
/// recombined value is not in the non-native field's range.
pub fn decode_limbs(hi: &FrElem, lo: &FrElem) -> (r: Result<FqElem, ApkError>)
    requires
        hi.wf(),
        lo.wf(),
    ensures
        r is Ok <==> (hi.value() < pow2(192) && lo.value() < pow2(192)
            && lo.value() + pow2(192) * hi.value() < q_nat()),
        match r {
            Ok(x) => x.wf() && x.value() == lo.value() + pow2(192) * hi.value(),
            Err(e) => e == ApkError::Encoding,
        },
{
    proof {
        lemma_top_word_zero(hi.words@);
        lemma_top_word_zero(lo.words@);
    }
    if hi.words[3] != 0 || lo.words[3] != 0 {
        return Err(ApkError::Encoding);
    }
    let combined: Vec<u64> = vec![
        lo.words[0], lo.words[1], lo.words[2],
        hi.words[0], hi.words[1], hi.words[2],
    ];
    proof {
        lemma_word_value_split(combined@, 3);
        assert(combined@.take(3) =~= lo.words@.take(3));
        assert(combined@.skip(3) =~= hi.words@.take(3));
        lemma_padded_value(hi.words@);
        lemma_padded_value(lo.words@);
    }
    let q = q_words();
    if words_lt(&combined, &q) {
        Ok(FqElem { words: combined })
    } else {
        Err(ApkError::Encoding)
    }
}

} // verus!
