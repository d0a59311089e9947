//! The three prime fields the system spans, modelled as word vectors.
//!
//! `FqElem` is an element of the key curve's base field (BLS12-381 `Fq`,
//! 381 bits, six words).  `FrElem` is an element of the proving curve's
//! scalar field (BN254 `Fr`, the native field of the circuit, four words).
//! `FpElem` is an element of the proving curve's base field (BN254 `Fq`,
//! four words), the field the on-chain verifier's point coordinates live in.

use vstd::prelude::*;
use vstd::arithmetic::power2::*;
use crate::words::{word_value, words_lt, clone_words, lemma_word_value_at};
use crate::ApkError;

verus! {

pub const Q_W0: u64 = 0xb9feffffffffaaab;

pub const Q_W1: u64 = 0x1eabfffeb153ffff;

pub const Q_W2: u64 = 0x6730d2a0f6b0f624;

pub const Q_W3: u64 = 0x64774b84f38512bf;

pub const Q_W4: u64 = 0x4b1ba7b6434bacd7;

pub const Q_W5: u64 = 0x1a0111ea397fe69a;

pub const R_W0: u64 = 0x43e1f593f0000001;

pub const R_W1: u64 = 0x2833e84879b97091;

pub const R_W2: u64 = 0xb85045b68181585d;

pub const R_W3: u64 = 0x30644e72e131a029;

pub const P_W0: u64 = 0x3c208c16d87cfd47;

pub const P_W1: u64 = 0x97816a916871ca8d;

pub const P_W2: u64 = 0xb85045b68181585d;

pub const P_W3: u64 = 0x30644e72e131a029;

/// The words of the key curve's base-field order, least significant first.
pub open spec fn q_word_seq() -> Seq<u64> {
    seq![Q_W0, Q_W1, Q_W2, Q_W3, Q_W4, Q_W5]
}

/// The order of the key curve's base field.
pub open spec fn q_nat() -> nat {
    word_value(q_word_seq())
}

/// The words of the native scalar field's order, least significant first.
pub open spec fn r_word_seq() -> Seq<u64> {
    seq![R_W0, R_W1, R_W2, R_W3]
}

/// The order of the native scalar field.
pub open spec fn r_nat() -> nat {
    word_value(r_word_seq())
}

/// The words of the proving curve's base-field order, least significant first.
pub open spec fn p_word_seq() -> Seq<u64> {
    seq![P_W0, P_W1, P_W2, P_W3]
}

/// The order of the proving curve's base field.
pub open spec fn p_nat() -> nat {
    word_value(p_word_seq())
}

pub fn q_words() -> (r: Vec<u64>)
    ensures
        r@ == q_word_seq(),
{
    let r: Vec<u64> = vec![Q_W0, Q_W1, Q_W2, Q_W3, Q_W4, Q_W5];
    proof {
        assert(r@ =~= q_word_seq());
    }
    r
}

pub fn r_words() -> (r: Vec<u64>)
    ensures
        r@ == r_word_seq(),
{
    let r: Vec<u64> = vec![R_W0, R_W1, R_W2, R_W3];
    proof {
        assert(r@ =~= r_word_seq());
    }
    r
}

pub fn p_words() -> (r: Vec<u64>)
    ensures
        r@ == p_word_seq(),
{
    let r: Vec<u64> = vec![P_W0, P_W1, P_W2, P_W3];
    proof {
        assert(r@ =~= p_word_seq());
    }
    r
}

/// The native scalar field holds every 192-bit limb: `2^192 < r`.
pub proof fn lemma_pow2_192_lt_r()
    ensures
        pow2(192) < r_nat(),
{
    lemma_word_value_at(r_word_seq(), 3);
    assert(r_word_seq().take(3).len() == 3);
    assert(r_word_seq().skip(4) =~= Seq::<u64>::empty());
    assert(word_value(r_word_seq().skip(4)) == 0);
    assert(r_nat() >= pow2(192) * R_W3) by (nonlinear_arith)
        requires
            r_nat() == word_value(r_word_seq().take(3)) + pow2(192) * R_W3 + pow2(256) * 0,
    ;
    lemma_pow2_pos(192);
    assert(pow2(192) * R_W3 > pow2(192) * 1) by (nonlinear_arith)
        requires
            pow2(192) > 0,
            R_W3 > 1,
    ;
}

/// The native scalar field holds every packed bit-vector of up to 253 bits:
/// `2^253 < r`.
pub proof fn lemma_pow2_253_lt_r()
    ensures
        pow2(253) < r_nat(),
{
    lemma_word_value_at(r_word_seq(), 3);
    assert(r_word_seq().skip(4) =~= Seq::<u64>::empty());
    assert(word_value(r_word_seq().skip(4)) == 0);
    lemma2_to64();
    lemma2_to64_rest();
    lemma_pow2_adds(192, 61);
    assert(R_W3 > pow2(61));
    lemma_pow2_pos(192);
    assert(r_nat() >= pow2(192) * R_W3) by (nonlinear_arith)
        requires
            r_nat() == word_value(r_word_seq().take(3)) + pow2(192) * R_W3 + pow2(256) * 0,
    ;
    assert(pow2(192) * R_W3 > pow2(192) * pow2(61)) by (nonlinear_arith)
        requires
            pow2(192) > 0,
            R_W3 > pow2(61),
    ;
}

/// An element of the key curve's base field: six little-endian words whose
/// value lies below the field's order.
pub struct FqElem {
    pub words: Vec<u64>,
}

impl FqElem {
    /// The element as a natural number.
    pub open spec fn value(self) -> nat {
        word_value(self.words@)
    }

    pub open spec fn wf(self) -> bool {
        self.words@.len() == 6 && self.value() < q_nat()
    }

    /// Builds an element from its words, rejecting vectors of the wrong
    /// length and values at or above the field's order.
    pub fn from_words(words: Vec<u64>) -> (r: Result<FqElem, ApkError>)
        ensures
            match r {
                Ok(x) => x.words@ == words@ && x.wf(),
                Err(e) => e == ApkError::Encoding
                    && !(words@.len() == 6 && word_value(words@) < q_nat()),
            },
    {
        if words.len() != 6 {
            return Err(ApkError::Encoding);
        }
        let q = q_words();
        if words_lt(&words, &q) {
            Ok(FqElem { words })
        } else {
            Err(ApkError::Encoding)
        }
    }

    /// Copies the element.
    pub fn duplicate(&self) -> (r: FqElem)
        ensures
            r.words@ == self.words@,
    {
        FqElem { words: clone_words(&self.words) }
    }
}

/// An element of the native scalar field: four little-endian words whose
/// value lies below the field's order.
pub struct FrElem {
    pub words: Vec<u64>,
}

impl FrElem {
    /// The element as a natural number.
    pub open spec fn value(self) -> nat {
        word_value(self.words@)
    }

    pub open spec fn wf(self) -> bool {
        self.words@.len() == 4 && self.value() < r_nat()
    }

    /// Builds an element from its words, rejecting vectors of the wrong
    /// length and values at or above the field's order.
    pub fn from_words(words: Vec<u64>) -> (r: Result<FrElem, ApkError>)
        ensures
            match r {
                Ok(x) => x.words@ == words@ && x.wf(),
                Err(e) => e == ApkError::Encoding
                    && !(words@.len() == 4 && word_value(words@) < r_nat()),
            },
    {
        if words.len() != 4 {
            return Err(ApkError::Encoding);
        }
        let m = r_words();
        if words_lt(&words, &m) {
            Ok(FrElem { words })
        } else {
            Err(ApkError::Encoding)
        }
    }

    /// Copies the element.
    pub fn duplicate(&self) -> (r: FrElem)
        ensures
            r.words@ == self.words@,
    {
        FrElem { words: clone_words(&self.words) }
    }
}

/// An element of the proving curve's base field: four little-endian words
/// whose value lies below the field's order.
pub struct FpElem {
    pub words: Vec<u64>,
}

impl FpElem {
    /// The element as a natural number.
    pub open spec fn value(self) -> nat {
        word_value(self.words@)
    }

    pub open spec fn wf(self) -> bool {
        self.words@.len() == 4 && self.value() < p_nat()
    }

    /// Builds an element from its words, rejecting vectors of the wrong
    /// length and values at or above the field's order.
    pub fn from_words(words: Vec<u64>) -> (r: Result<FpElem, ApkError>)
        ensures
            match r {
                Ok(x) => x.words@ == words@ && x.wf(),
                Err(e) => e == ApkError::Encoding
                    && !(words@.len() == 4 && word_value(words@) < p_nat()),
            },
    {
        if words.len() != 4 {
            return Err(ApkError::Encoding);
        }
        let m = p_words();
        if words_lt(&words, &m) {
            Ok(FpElem { words })
        } else {
            Err(ApkError::Encoding)
        }
    }

    /// Copies the element.
    pub fn duplicate(&self) -> (r: FpElem)
        ensures
            r.words@ == self.words@,
    {
        FpElem { words: clone_words(&self.words) }
    }
}

} // verus!
