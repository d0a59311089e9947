//! Points on the key curve and the selected-subset accumulation.
//!
//! A point is an affine pair of non-native field elements plus an
//! infinity flag.  The group law itself lives in the curve library and is
//! taken on trust behind one wrapper; everything around it — the fold that
//! adds the selected keys onto the seed — is verified against the abstract
//! operation.

use vstd::prelude::*;
use ark_bls12_381::{Fq, G1Affine};
use ark_ec::{AffineRepr, CurveGroup};
use ark_ff::{BigInt, PrimeField};
use crate::fields::FqElem;
use crate::ApkError;

verus! {

/// The mathematical content of a point: both coordinates as naturals, and
/// whether the point is the group identity.
pub struct G1View {
    pub x: nat,
    pub y: nat,
    pub infinity: bool,
}

/// An affine point on the key curve.
pub struct G1Point {
    pub x: FqElem,
    pub y: FqElem,
    pub infinity: bool,
}

impl View for G1Point {
    type V = G1View;

    open spec fn view(&self) -> G1View {
        G1View { x: self.x.value(), y: self.y.value(), infinity: self.infinity }
    }
}

impl G1Point {
    pub open spec fn wf(self) -> bool {
        self.x.wf() && self.y.wf()
    }

    /// Builds a point from the words of its two coordinates.
    pub fn from_words(x: Vec<u64>, y: Vec<u64>, infinity: bool) -> (r: Result<G1Point, ApkError>)
        ensures
            match r {
                Ok(p) => p.wf() && p.x.words@ == x@ && p.y.words@ == y@
                    && p.infinity == infinity,
                Err(e) => e == ApkError::Encoding,
            },
    {
        let xe = match FqElem::from_words(x) {
            Ok(v) => v,
            Err(e) => { return Err(e); },
        };
        let ye = match FqElem::from_words(y) {
            Ok(v) => v,
            Err(e) => { return Err(e); },
        };
        Ok(G1Point { x: xe, y: ye, infinity })
    }

    /// Copies the point.
    pub fn duplicate(&self) -> (r: G1Point)
        ensures
            r@ == self@,
            r.wf() == self.wf(),
            r.x.words@ == self.x.words@,
            r.y.words@ == self.y.words@,
    {
        G1Point { x: self.x.duplicate(), y: self.y.duplicate(), infinity: self.infinity }
    }
}

/// The group law of the key curve, named but not written out: the curve
/// library computes it, and the result is a function of the two points
/// alone.
pub uninterp spec fn g1_add_of(a: G1View, b: G1View) -> G1View;

/// Adding a point to an accumulator.
///
/// Relies on `ark_ec`'s short-Weierstrass affine addition for BLS12-381
/// `G1` (`Add` on `Affine` and `CurveGroup::into_affine`) together with
/// `ark_ff`'s `PrimeField::from_bigint` / `into_bigint`: the sum of the two
/// points, a pure function of its arguments, with coordinates returned
/// reduced below the field's order in six words.
#[verifier::external_body]
fn g1_add_call(a: &G1Point, b: &G1Point) -> (r: G1Point)
    requires
        a.wf(),
        b.wf(),
    ensures
        r@ == g1_add_of(a@, b@),
        r.wf(),
{
    let f = |v: &Vec<u64>| -> Fq {
        PrimeField::from_bigint(BigInt(v.clone().try_into().unwrap())).unwrap()
    };
    let g = |q: Fq| q.into_bigint().0.to_vec();
    let pa = if a.infinity { G1Affine::zero() }
        else { G1Affine::new_unchecked(f(&a.x.words), f(&a.y.words)) };
    let pb = if b.infinity { G1Affine::zero() }
        else { G1Affine::new_unchecked(f(&b.x.words), f(&b.y.words)) };
    let s = (pa + pb).into_affine();
    G1Point { x: FqElem { words: g(s.x) }, y: FqElem { words: g(s.y) }, infinity: s.infinity }
}

/// The views of a sequence of points.
pub open spec fn g1_views(s: Seq<G1Point>) -> Seq<G1View> {
    s.map_values(|p: G1Point| p@)
}

/// Folding the selected keys onto an accumulator: each key whose bit is
/// set is added, in order; the others leave the accumulator unchanged.
pub open spec fn apk_fold(acc: G1View, keys: Seq<G1View>, bits: Seq<bool>) -> G1View
    decreases keys.len(),
{
    if keys.len() == 0 || bits.len() == 0 {
        acc
    } else {
        let next = if bits[0] { g1_add_of(acc, keys[0]) } else { acc };
        apk_fold(next, keys.skip(1), bits.skip(1))
    }
}

/// When no bit is set the fold returns the accumulator untouched: the
/// aggregate of an all-false bit-vector is exactly the seed.
pub proof fn lemma_apk_fold_all_false(acc: G1View, keys: Seq<G1View>, bits: Seq<bool>)
    requires
        forall|i: int| 0 <= i < bits.len() ==> !bits[i],
    ensures
        apk_fold(acc, keys, bits) == acc,
    decreases keys.len(),
{
    if keys.len() == 0 || bits.len() == 0 {
    } else {
        assert(!bits[0]);
        lemma_apk_fold_all_false(acc, keys.skip(1), bits.skip(1));
    }
}

/// Computes the aggregate public key: the seed plus the sum of the keys
/// whose bits are set, by the key curve's group law.
pub fn compute_apk(seed: G1Point, keys: &Vec<G1Point>, bits: &Vec<bool>) -> (r: G1Point)
    requires
        seed.wf(),
        keys@.len() == bits@.len(),
        forall|i: int| 0 <= i < keys@.len() ==> keys@[i].wf(),
    ensures
        r.wf(),
        r@ == apk_fold(seed@, g1_views(keys@), bits@),
{
    let ghost full = apk_fold(seed@, g1_views(keys@), bits@);
    let mut acc = seed;
    let mut i: usize = 0;
    proof {
        assert(g1_views(keys@).skip(0) =~= g1_views(keys@));
        assert(bits@.skip(0) =~= bits@);
    }
    while i < keys.len()
        invariant
            i <= keys@.len(),
            bits@.len() == keys@.len(),
            forall|j: int| 0 <= j < keys@.len() ==> keys@[j].wf(),
            acc.wf(),
            full == apk_fold(acc@, g1_views(keys@).skip(i as int), bits@.skip(i as int)),
        decreases keys@.len() - i,
    {
        let ghost pre = acc@;
        if bits[i] {
            acc = g1_add_call(&acc, &keys[i]);
        }
        proof {
            let kv = g1_views(keys@);
            assert(kv.skip(i as int)[0] == keys@[i as int]@);
            assert(bits@.skip(i as int)[0] == bits@[i as int]);
            assert(kv.skip(i as int).skip(1) =~= kv.skip(i + 1));
            assert(bits@.skip(i as int).skip(1) =~= bits@.skip(i + 1));
            assert(apk_fold(pre, kv.skip(i as int), bits@.skip(i as int))
                == apk_fold(acc@, kv.skip(i + 1), bits@.skip(i + 1)));
        }
        i = i + 1;
    }
    proof {
        assert(g1_views(keys@).skip(keys@.len() as int) =~= Seq::<G1View>::empty());
        assert(bits@.skip(bits@.len() as int) =~= Seq::<bool>::empty());
    }
    acc
}

} // verus!
