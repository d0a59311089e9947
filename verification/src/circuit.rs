//! The aggregate-public-key membership circuit, modelled as the relation
//! it constrains.
//!
//! An instance fixes the candidate keys, the seed point, the packed
//! bit-vector scalar and the claimed aggregate.  The relation holds for a
//! bit-vector exactly when each bit is boolean, the little-endian weighted
//! sum of the bits equals the packed scalar, and the seed plus the selected
//! keys equals the aggregate.  The public-input vector is the limb encoding
//! of the keys, then the packed scalar, then the limb encoding of the
//! aggregate — an order the on-chain verifier must agree on bit for bit.

use vstd::prelude::*;
use vstd::arithmetic::power2::{pow2, lemma_pow2_adds, lemma_pow2_pos, lemma2_to64,
    lemma_pow2_strictly_increases};
use vstd::bits::lemma_u64_shl_is_mul;
use crate::words::{word_value, lemma_word_value_at};
use crate::fields::{FrElem, lemma_pow2_253_lt_r};
use crate::limbs::{limb_hi, limb_lo, fq_limbs};
use crate::point::{G1Point, G1View, g1_views, apk_fold, lemma_apk_fold_all_false};

verus! {

/// The little-endian weighted sum of a bit-vector:
/// `bits[0] + 2 * bits[1] + 4 * bits[2] + ...`.
pub open spec fn pack_val(bits: Seq<bool>) -> nat
    decreases bits.len(),
{
    if bits.len() == 0 {
        0
    } else {
        ((if bits[0] { 1nat } else { 0nat }) + 2 * pack_val(bits.skip(1))) as nat
    }
}

/// An all-zero word vector has value zero.
proof fn lemma_word_value_all_zero(s: Seq<u64>)
    requires
        forall|i: int| 0 <= i < s.len() ==> s[i] == 0,
    ensures
        word_value(s) == 0,
    decreases s.len(),
{
    if s.len() > 0 {
        assert(s[0] == 0);
        assert(forall|i: int| 0 <= i < s.skip(1).len() ==> s.skip(1)[i] == 0);
        lemma_word_value_all_zero(s.skip(1));
        assert(word_value(s) == 0 + pow2(64) * 0);
    }
}

/// A packed bit-vector is bounded by two to the number of bits.
pub proof fn lemma_pack_val_bound(bits: Seq<bool>)
    ensures
        pack_val(bits) < pow2(bits.len()),
    decreases bits.len(),
{
    lemma2_to64();
    if bits.len() == 0 {
    } else {
        lemma_pack_val_bound(bits.skip(1));
        lemma_pow2_adds(1, (bits.len() - 1) as nat);
        assert(pow2(bits.len()) == 2 * pow2((bits.len() - 1) as nat));
    }
}

/// An all-false bit-vector packs to zero.
pub proof fn lemma_pack_val_all_false(bits: Seq<bool>)
    requires
        forall|i: int| 0 <= i < bits.len() ==> !bits[i],
    ensures
        pack_val(bits) == 0,
    decreases bits.len(),
{
    if bits.len() == 0 {
    } else {
        assert(!bits[0]);
        lemma_pack_val_all_false(bits.skip(1));
    }
}

/// Packing is injective: equally long bit-vectors with the same packed
/// value are the same vector.  This is what lets the packed scalar stand
/// in for the bits as a public input.
pub proof fn lemma_pack_val_injective(a: Seq<bool>, b: Seq<bool>)
    requires
        a.len() == b.len(),
        pack_val(a) == pack_val(b),
    ensures
        a == b,
    decreases a.len(),
{
    if a.len() == 0 {
        assert(a =~= b);
    } else {
        assert(a[0] == b[0]);
        assert(pack_val(a.skip(1)) == pack_val(b.skip(1)));
        lemma_pack_val_injective(a.skip(1), b.skip(1));
        assert forall|i: int| 0 <= i < a.len() implies a[i] == b[i] by {
            if i > 0 {
                assert(a[i] == a.skip(1)[i - 1]);
                assert(b[i] == b.skip(1)[i - 1]);
            }
        }
        assert(a =~= b);
    }
}

/// Extending the packed prefix by one bit adds that bit's weight.
proof fn lemma_pack_val_take_step(bits: Seq<bool>, i: int)
    requires
        0 <= i < bits.len(),
    ensures
        pack_val(bits.take(i + 1))
            == pack_val(bits.take(i)) + (if bits[i] { pow2(i as nat) } else { 0nat }),
    decreases i,
{
    lemma2_to64();
    if i == 0 {
        assert(bits.take(1).skip(1) =~= Seq::<bool>::empty());
        assert(bits.take(1)[0] == bits[0]);
        assert(bits.take(0) =~= Seq::<bool>::empty());
    } else {
        lemma_pack_val_take_step(bits.skip(1), i - 1);
        assert(bits.take(i + 1).skip(1) =~= bits.skip(1).take(i));
        assert(bits.take(i).skip(1) =~= bits.skip(1).take(i - 1));
        assert(bits.take(i + 1)[0] == bits[0]);
        assert(bits.take(i)[0] == bits[0]);
        assert(bits.skip(1)[i - 1] == bits[i]);
        lemma_pow2_adds(1, (i - 1) as nat);
        assert(pow2(i as nat) == 2 * pow2((i - 1) as nat));
    }
}

/// Packs a bit-vector into one native scalar by the little-endian weighted
/// sum.  The bit count is limited by the native field: with at most 253
/// bits every packed value lies below the field's order.
pub fn pack_bits(bits: &Vec<bool>) -> (r: FrElem)
    requires
        bits@.len() <= 253,
    ensures
        r.wf(),
        r.value() == pack_val(bits@),
{
    let mut packed: Vec<u64> = vec![0, 0, 0, 0];
    proof {
        lemma_word_value_all_zero(packed@);
        assert(bits@.take(0) =~= Seq::<bool>::empty());
    }
    let mut i: usize = 0;
    while i < bits.len()
        invariant
            i <= bits@.len() <= 253,
            packed@.len() == 4,
            word_value(packed@) == pack_val(bits@.take(i as int)),
        decreases bits@.len() - i,
    {
        proof {
            lemma_pack_val_take_step(bits@, i as int);
        }
        if bits[i] {
            let q = i / 64;
            let m = i % 64;
            let mask: u64 = 1u64 << (m as u64);
            proof {
                let w = packed@;
                let old_word = w[q as int];
                lemma_word_value_at(w, q as int);
                lemma_pack_val_bound(bits@.take(i as int));
                assert(bits@.take(i as int).len() == i);
                lemma_pow2_adds((64 * q) as nat, m as nat);
                lemma_pow2_pos((64 * q) as nat);
                lemma_pow2_pos(m as nat);
                assert(64 * q + m == i);
                lemma2_to64();
                lemma_pow2_strictly_increases(m as nat, 64);
                lemma_u64_shl_is_mul(1u64, m as u64);
                assert(mask == pow2(m as nat));
                let lo = word_value(w.take(q as int));
                let hi = word_value(w.skip(q as int + 1));
                let p = pow2((64 * q) as nat);
                assert(old_word < pow2(m as nat)) by (nonlinear_arith)
                    requires
                        lo + p * old_word + pow2((64 * (q + 1)) as nat) * hi
                            < p * pow2(m as nat),
                        p > 0,
                        lo >= 0,
                        hi >= 0,
                        pow2((64 * (q + 1)) as nat) >= 0,
                        old_word >= 0,
                ;
                assert(pow2((m + 1) as nat) == 2 * pow2(m as nat)) by {
                    lemma_pow2_adds(1, m as nat);
                    lemma2_to64();
                }
                if m + 1 < 64 {
                    lemma_pow2_strictly_increases((m + 1) as nat, 64);
                }
                lemma2_to64();
            }
            let ghost wpre = packed@;
            let updated: u64 = packed[q] + mask;
            packed.set(q, updated);
            proof {
                let w = packed@;
                assert(w.take(q as int) =~= wpre.take(q as int));
                assert(w.skip(q as int + 1) =~= wpre.skip(q as int + 1));
                lemma_word_value_at(w, q as int);
                lemma_word_value_at(wpre, q as int);
                let p = pow2((64 * q) as nat);
                assert(p * (wpre[q as int] + pow2(m as nat))
                    == p * wpre[q as int] + p * pow2(m as nat)) by (nonlinear_arith);
                assert(p * pow2(m as nat) == pow2(i as nat)) by {
                    lemma_pow2_adds((64 * q) as nat, m as nat);
                    assert(64 * q + m == i);
                }
            }
        }
        i = i + 1;
    }
    proof {
        assert(bits@.take(bits@.len() as int) =~= bits@);
        lemma_pack_val_bound(bits@);
        lemma_pow2_253_lt_r();
        if bits@.len() < 253 {
            lemma_pow2_strictly_increases(bits@.len(), 253);
        }
    }
    FrElem { words: packed }
}

/// The mathematical content of a circuit instance.
pub struct ApkCircuitView {
    pub keys: Seq<G1View>,
    pub seed: G1View,
    pub packed: nat,
    pub aggregate: G1View,
}

/// One instance of the membership circuit: the candidate keys, the seed,
/// the packed bit-vector scalar and the claimed aggregate.
pub struct ApkCircuit {
    pub keys: Vec<G1Point>,
    pub seed: G1Point,
    pub packed_bits: FrElem,
    pub aggregate: G1Point,
}

impl View for ApkCircuit {
    type V = ApkCircuitView;

    open spec fn view(&self) -> ApkCircuitView {
        ApkCircuitView {
            keys: g1_views(self.keys@),
            seed: self.seed@,
            packed: self.packed_bits.value(),
            aggregate: self.aggregate@,
        }
    }
}

/// The circuit's relation, for one assignment of the bit witness: the
/// bit-vector has one bit per key, packs to the public scalar, and selects
/// the keys whose sum with the seed is the aggregate.
pub open spec fn circuit_satisfied_with(c: ApkCircuitView, bits: Seq<bool>) -> bool {
    &&& bits.len() == c.keys.len()
    &&& c.packed == pack_val(bits)
    &&& c.aggregate == apk_fold(c.seed, c.keys, bits)
}

/// Whether some bit witness satisfies the instance.
pub open spec fn circuit_satisfiable(c: ApkCircuitView) -> bool {
    exists|bits: Seq<bool>| circuit_satisfied_with(c, bits)
}

impl ApkCircuit {
    pub open spec fn wf(self) -> bool {
        &&& forall|i: int| 0 <= i < self.keys@.len() ==> self.keys@[i].wf()
        &&& self.seed.wf()
        &&& self.packed_bits.wf()
        &&& self.aggregate.wf()
        &&& self.keys@.len() <= 253
    }

    /// Assembles an instance from its already-encoded parts.
    pub fn new(keys: Vec<G1Point>, seed: G1Point, packed_bits: FrElem, aggregate: G1Point)
        -> (r: ApkCircuit)
        ensures
            r.keys@ == keys@,
            r.seed == seed,
            r.packed_bits == packed_bits,
            r.aggregate == aggregate,
    {
        ApkCircuit { keys, seed, packed_bits, aggregate }
    }

    /// Builds an instance from the raw bit-vector, packing it along the
    /// way.  The instance is satisfiable by these bits exactly when the
    /// claimed aggregate is the seed plus the selected keys.
    pub fn build(keys: Vec<G1Point>, seed: G1Point, bits: &Vec<bool>, aggregate: G1Point)
        -> (r: ApkCircuit)
        requires
            bits@.len() == keys@.len() <= 253,
            seed.wf(),
            aggregate.wf(),
            forall|i: int| 0 <= i < keys@.len() ==> keys@[i].wf(),
        ensures
            r.wf(),
            r@.keys == g1_views(keys@),
            r@.seed == seed@,
            r@.aggregate == aggregate@,
            r@.packed == pack_val(bits@),
            circuit_satisfied_with(r@, bits@)
                <==> aggregate@ == apk_fold(seed@, g1_views(keys@), bits@),
    {
        let packed_bits = pack_bits(bits);
        ApkCircuit { keys, seed, packed_bits, aggregate }
    }
}

/// Completeness of the modelled relation: the honestly computed packed
/// scalar and aggregate always satisfy the instance.
pub proof fn lemma_circuit_completeness(c: ApkCircuitView, bits: Seq<bool>)
    requires
        bits.len() == c.keys.len(),
        c.packed == pack_val(bits),
        c.aggregate == apk_fold(c.seed, c.keys, bits),
    ensures
        circuit_satisfiable(c),
{
    assert(circuit_satisfied_with(c, bits));
}

/// Soundness of the modelled relation: if the aggregate is not the seed
/// plus the keys selected by the bits the packed scalar encodes, no bit
/// witness satisfies the instance.
pub proof fn lemma_circuit_soundness(c: ApkCircuitView, bits: Seq<bool>)
    requires
        bits.len() == c.keys.len(),
        c.packed == pack_val(bits),
        c.aggregate != apk_fold(c.seed, c.keys, bits),
    ensures
        !circuit_satisfiable(c),
{
    if circuit_satisfiable(c) {
        let w = choose|w: Seq<bool>| circuit_satisfied_with(c, w);
        lemma_pack_val_injective(w, bits);
        assert(false);
    }
}

/// The empty key set degenerates to `aggregate == seed` (with a zero
/// packed scalar): the instance is satisfiable exactly then.
pub proof fn lemma_circuit_empty_keys(c: ApkCircuitView)
    requires
        c.keys.len() == 0,
    ensures
        circuit_satisfiable(c) <==> (c.packed == 0 && c.aggregate == c.seed),
{
    if circuit_satisfiable(c) {
        let w = choose|w: Seq<bool>| circuit_satisfied_with(c, w);
        assert(w.len() == 0);
    }
    if c.packed == 0 && c.aggregate == c.seed {
        assert(circuit_satisfied_with(c, Seq::<bool>::empty()));
    }
}

/// The all-false bit-vector satisfies an instance exactly when the
/// aggregate equals the seed itself and the packed scalar is zero.
pub proof fn lemma_circuit_all_false(c: ApkCircuitView, bits: Seq<bool>)
    requires
        bits.len() == c.keys.len(),
        forall|i: int| 0 <= i < bits.len() ==> !bits[i],
    ensures
        circuit_satisfied_with(c, bits) <==> (c.packed == 0 && c.aggregate == c.seed),
{
    lemma_apk_fold_all_false(c.seed, c.keys, bits);
    lemma_pack_val_all_false(bits);
}

/// The limbs of one point's two coordinates, `x` before `y`, most
/// significant limb of each coordinate first.
pub open spec fn point_limb_values(p: G1View) -> Seq<nat> {
    seq![limb_hi(p.x), limb_lo(p.x), limb_hi(p.y), limb_lo(p.y)]
}

/// The concatenated limbs of a sequence of points, in key order.
pub open spec fn keys_limb_values(keys: Seq<G1View>) -> Seq<nat>
    decreases keys.len(),
{
    if keys.len() == 0 {
        Seq::empty()
    } else {
        point_limb_values(keys[0]) + keys_limb_values(keys.skip(1))
    }
}

/// Appending a key appends its four limbs.
proof fn lemma_keys_limb_values_push(keys: Seq<G1View>, p: G1View)
    ensures
        keys_limb_values(keys.push(p)) == keys_limb_values(keys) + point_limb_values(p),
    decreases keys.len(),
{
    if keys.len() == 0 {
        assert(keys.push(p).skip(1) =~= Seq::<G1View>::empty());
        assert(keys.push(p)[0] == p);
        assert(keys_limb_values(Seq::<G1View>::empty()) =~= Seq::<nat>::empty());
        assert(keys_limb_values(keys.push(p)) =~= point_limb_values(p));
        assert(keys_limb_values(keys) + point_limb_values(p) =~= point_limb_values(p));
    } else {
        lemma_keys_limb_values_push(keys.skip(1), p);
        assert(keys.push(p).skip(1) =~= keys.skip(1).push(p));
        assert(keys.push(p)[0] == keys[0]);
        assert(point_limb_values(keys[0])
            + (keys_limb_values(keys.skip(1)) + point_limb_values(p))
            =~= (point_limb_values(keys[0]) + keys_limb_values(keys.skip(1)))
                + point_limb_values(p));
    }
}

/// The fixed public-input layout: the limbs of every key, then the packed
/// bit-vector scalar, then the limbs of the aggregate.
pub open spec fn public_input_values(keys: Seq<G1View>, packed: nat, agg: G1View) -> Seq<nat> {
    keys_limb_values(keys) + seq![packed] + point_limb_values(agg)
}

/// The packed scalar sits at a fixed position of the public-input
/// vector, directly after the key limbs: submitting a packed value for a
/// different bit selection changes the vector there, so a re-encoded
/// selector can never masquerade as the one the proof was built for.
pub proof fn lemma_packed_input_position(keys: Seq<G1View>, p1: nat, p2: nat, agg: G1View)
    ensures
        public_input_values(keys, p1, agg)[keys_limb_values(keys).len() as int] == p1,
        p1 != p2 ==> public_input_values(keys, p1, agg) != public_input_values(keys, p2, agg),
{
    let at = keys_limb_values(keys).len() as int;
    assert(public_input_values(keys, p1, agg)[at] == p1);
    assert(public_input_values(keys, p2, agg)[at] == p2);
}

/// Encodes the keys into their public-input limbs, in key order.
pub fn keys_to_limbs(keys: &Vec<G1Point>) -> (r: Vec<FrElem>)
    requires
        forall|i: int| 0 <= i < keys@.len() ==> keys@[i].wf(),
    ensures
        r@.map_values(|f: FrElem| f.value()) == keys_limb_values(g1_views(keys@)),
        forall|i: int| 0 <= i < r@.len() ==> r@[i].wf(),
{
    let mut r: Vec<FrElem> = Vec::new();
    let mut i: usize = 0;
    proof {
        assert(g1_views(keys@).take(0) =~= Seq::<G1View>::empty());
    }
    while i < keys.len()
        invariant
            i <= keys@.len(),
            forall|j: int| 0 <= j < keys@.len() ==> keys@[j].wf(),
            forall|j: int| 0 <= j < r@.len() ==> r@[j].wf(),
            r@.map_values(|f: FrElem| f.value())
                == keys_limb_values(g1_views(keys@).take(i as int)),
        decreases keys@.len() - i,
    {
        let (xh, xl) = fq_limbs(&keys[i].x);
        let (yh, yl) = fq_limbs(&keys[i].y);
        r.push(xh);
        r.push(xl);
        r.push(yh);
        r.push(yl);
        proof {
            let kv = g1_views(keys@);
            lemma_keys_limb_values_push(kv.take(i as int), kv[i as int]);
            assert(kv.take(i + 1) =~= kv.take(i as int).push(kv[i as int]));
            assert(r@.map_values(|f: FrElem| f.value())
                =~= keys_limb_values(kv.take(i as int)) + point_limb_values(kv[i as int]));
        }
        i = i + 1;
    }
    proof {
        assert(g1_views(keys@).take(keys@.len() as int) =~= g1_views(keys@));
    }
    r
}

/// Builds the full public-input vector for an instance, in the layout the
/// verifiers consume: key limbs, packed scalar, aggregate limbs.
pub fn public_inputs(c: &ApkCircuit) -> (r: Vec<FrElem>)
    requires
        c.wf(),
    ensures
        r@.map_values(|f: FrElem| f.value())
            == public_input_values(c@.keys, c@.packed, c@.aggregate),
        forall|i: int| 0 <= i < r@.len() ==> r@[i].wf(),
        r@.len() == 4 * c.keys@.len() + 5,
{
    let mut r = keys_to_limbs(&c.keys);
    let ghost key_part = r@.map_values(|f: FrElem| f.value());
    r.push(c.packed_bits.duplicate());
    let (ah, al) = fq_limbs(&c.aggregate.x);
    let (bh, bl) = fq_limbs(&c.aggregate.y);
    r.push(ah);
    r.push(al);
    r.push(bh);
    r.push(bl);
    proof {
        assert(r@.map_values(|f: FrElem| f.value())
            =~= key_part + seq![c@.packed] + point_limb_values(c@.aggregate));
        lemma_keys_limb_len(c@.keys);
    }
    r
}

/// A key sequence contributes four limbs per key.
proof fn lemma_keys_limb_len(keys: Seq<G1View>)
    ensures
        keys_limb_values(keys).len() == 4 * keys.len(),
    decreases keys.len(),
{
    if keys.len() == 0 {
    } else {
        lemma_keys_limb_len(keys.skip(1));
    }
}

} // verus!
