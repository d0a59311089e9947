//! The proof adapter: re-encoding proving-curve points, the proof and the
//! verifying key into the layout the on-chain pairing-check verifier
//! expects.
//!
//! The adapter does no cryptographic work; it copies coordinates.  The one
//! subtlety is the twist field: an on-chain `G2` coordinate is a pair of
//! base-field words emitted second component first, so the conversion
//! swaps each coordinate pair.  Omitting the swap silently breaks
//! verification, which is why it lives in one function with its inverse
//! and a proved round trip.

use vstd::prelude::*;
use crate::fields::FpElem;
use crate::ApkError;

verus! {

/// A quadratic-extension element of the proving curve's base field,
/// `c0 + c1 * u`.
pub struct Fp2Elem {
    pub c0: FpElem,
    pub c1: FpElem,
}

pub struct Fp2View {
    pub c0: nat,
    pub c1: nat,
}

impl View for Fp2Elem {
    type V = Fp2View;

    open spec fn view(&self) -> Fp2View {
        Fp2View { c0: self.c0.value(), c1: self.c1.value() }
    }
}

impl Fp2Elem {
    pub open spec fn wf(self) -> bool {
        self.c0.wf() && self.c1.wf()
    }
}

/// A point of the proving curve's first pairing group, as the prover
/// holds it.
pub struct BnG1 {
    pub x: FpElem,
    pub y: FpElem,
}

pub struct BnG1View {
    pub x: nat,
    pub y: nat,
}

impl View for BnG1 {
    type V = BnG1View;

    open spec fn view(&self) -> BnG1View {
        BnG1View { x: self.x.value(), y: self.y.value() }
    }
}

impl BnG1 {
    pub open spec fn wf(self) -> bool {
        self.x.wf() && self.y.wf()
    }
}

/// A twist point of the proving curve's second pairing group, as the
/// prover holds it: each coordinate is a quadratic-extension element.
pub struct BnG2 {
    pub x: Fp2Elem,
    pub y: Fp2Elem,
}

pub struct BnG2View {
    pub x: Fp2View,
    pub y: Fp2View,
}

impl View for BnG2 {
    type V = BnG2View;

    open spec fn view(&self) -> BnG2View {
        BnG2View { x: self.x@, y: self.y@ }
    }
}

impl BnG2 {
    pub open spec fn wf(self) -> bool {
        self.x.wf() && self.y.wf()
    }
}

/// A first-group point in the on-chain verifier's layout.
pub struct ContractG1 {
    pub x: FpElem,
    pub y: FpElem,
}

pub struct ContractG1View {
    pub x: nat,
    pub y: nat,
}

impl View for ContractG1 {
    type V = ContractG1View;

    open spec fn view(&self) -> ContractG1View {
        ContractG1View { x: self.x.value(), y: self.y.value() }
    }
}

impl ContractG1 {
    pub open spec fn wf(self) -> bool {
        self.x.wf() && self.y.wf()
    }
}

/// A twist point in the on-chain verifier's layout: each coordinate as
/// two base-field values, second extension component first.
pub struct ContractG2 {
    pub x_a: FpElem,
    pub x_b: FpElem,
    pub y_a: FpElem,
    pub y_b: FpElem,
}

pub struct ContractG2View {
    pub x_a: nat,
    pub x_b: nat,
    pub y_a: nat,
    pub y_b: nat,
}

impl View for ContractG2 {
    type V = ContractG2View;

    open spec fn view(&self) -> ContractG2View {
        ContractG2View {
            x_a: self.x_a.value(),
            x_b: self.x_b.value(),
            y_a: self.y_a.value(),
            y_b: self.y_b.value(),
        }
    }
}

impl ContractG2 {
    pub open spec fn wf(self) -> bool {
        self.x_a.wf() && self.x_b.wf() && self.y_a.wf() && self.y_b.wf()
    }
}

/// A first-group point keeps its coordinates unchanged on the way to the
/// contract.
pub open spec fn spec_to_contract_g1(p: BnG1View) -> ContractG1View {
    ContractG1View { x: p.x, y: p.y }
}

/// A twist point's coordinate pairs are emitted second component first.
pub open spec fn spec_to_contract_g2(p: BnG2View) -> ContractG2View {
    ContractG2View { x_a: p.x.c1, x_b: p.x.c0, y_a: p.y.c1, y_b: p.y.c0 }
}

/// The inverse re-ordering, back from the contract layout.
pub open spec fn spec_from_contract_g2(c: ContractG2View) -> BnG2View {
    BnG2View {
        x: Fp2View { c0: c.x_b, c1: c.x_a },
        y: Fp2View { c0: c.y_b, c1: c.y_a },
    }
}

/// The coordinate swap is its own inverse: converting a twist point to
/// the contract layout and back returns the point unchanged.
pub proof fn lemma_contract_g2_round_trip(p: BnG2View)
    ensures
        spec_from_contract_g2(spec_to_contract_g2(p)) == p,
{
}

/// Converts a first-group point for the contract: a direct coordinate
/// copy, no reordering.
pub fn to_contract_g1(p: &BnG1) -> (r: ContractG1)
    ensures
        r@ == spec_to_contract_g1(p@),
        p.wf() ==> r.wf(),
{
    ContractG1 { x: p.x.duplicate(), y: p.y.duplicate() }
}

/// Converts a twist point for the contract, swapping each coordinate
/// pair into the on-chain order.
pub fn to_contract_g2(p: &BnG2) -> (r: ContractG2)
    ensures
        r@ == spec_to_contract_g2(p@),
        p.wf() ==> r.wf(),
{
    ContractG2 {
        x_a: p.x.c1.duplicate(),
        x_b: p.x.c0.duplicate(),
        y_a: p.y.c1.duplicate(),
        y_b: p.y.c0.duplicate(),
    }
}

/// Reads a twist point back out of the contract layout, undoing the
/// swap.
pub fn from_contract_g2(c: &ContractG2) -> (r: BnG2)
    ensures
        r@ == spec_from_contract_g2(c@),
        c.wf() ==> r.wf(),
{
    BnG2 {
        x: Fp2Elem { c0: c.x_b.duplicate(), c1: c.x_a.duplicate() },
        y: Fp2Elem { c0: c.y_b.duplicate(), c1: c.y_a.duplicate() },
    }
}

/// A proof as the prover holds it: two first-group points and one twist
/// point.
pub struct ProofRepr {
    pub a: BnG1,
    pub b: BnG2,
    pub c: BnG1,
}

pub struct ProofView {
    pub a: BnG1View,
    pub b: BnG2View,
    pub c: BnG1View,
}

impl View for ProofRepr {
    type V = ProofView;

    open spec fn view(&self) -> ProofView {
        ProofView { a: self.a@, b: self.b@, c: self.c@ }
    }
}

impl ProofRepr {
    pub open spec fn wf(self) -> bool {
        self.a.wf() && self.b.wf() && self.c.wf()
    }
}

/// A proof in the on-chain verifier's layout.
pub struct ContractProof {
    pub a: ContractG1,
    pub b: ContractG2,
    pub c: ContractG1,
}

pub struct ContractProofView {
    pub a: ContractG1View,
    pub b: ContractG2View,
    pub c: ContractG1View,
}

impl View for ContractProof {
    type V = ContractProofView;

    open spec fn view(&self) -> ContractProofView {
        ContractProofView { a: self.a@, b: self.b@, c: self.c@ }
    }
}

pub open spec fn spec_to_contract_proof(p: ProofView) -> ContractProofView {
    ContractProofView {
        a: spec_to_contract_g1(p.a),
        b: spec_to_contract_g2(p.b),
        c: spec_to_contract_g1(p.c),
    }
}

/// Converts a proof for the contract: the two first-group points are
/// copied, the twist point is swapped into the on-chain order.
pub fn to_contract_proof(p: &ProofRepr) -> (r: ContractProof)
    ensures
        r@ == spec_to_contract_proof(p@),
{
    ContractProof {
        a: to_contract_g1(&p.a),
        b: to_contract_g2(&p.b),
        c: to_contract_g1(&p.c),
    }
}

/// A verifying key as the prover holds it.
pub struct VkRepr {
    pub alpha: BnG1,
    pub beta: BnG2,
    pub gamma: BnG2,
    pub delta: BnG2,
    pub ic: Vec<BnG1>,
}

pub struct VkView {
    pub alpha: BnG1View,
    pub beta: BnG2View,
    pub gamma: BnG2View,
    pub delta: BnG2View,
    pub ic: Seq<BnG1View>,
}

impl View for VkRepr {
    type V = VkView;

    open spec fn view(&self) -> VkView {
        VkView {
            alpha: self.alpha@,
            beta: self.beta@,
            gamma: self.gamma@,
            delta: self.delta@,
            ic: self.ic@.map_values(|g: BnG1| g@),
        }
    }
}

/// A verifying key in the on-chain verifier's layout.  The field names
/// follow the contract's ABI.
pub struct ContractVk {
    pub alfa_1: ContractG1,
    pub beta_2: ContractG2,
    pub gamma_2: ContractG2,
    pub delta_2: ContractG2,
    pub ic: Vec<ContractG1>,
}

pub struct ContractVkView {
    pub alfa_1: ContractG1View,
    pub beta_2: ContractG2View,
    pub gamma_2: ContractG2View,
    pub delta_2: ContractG2View,
    pub ic: Seq<ContractG1View>,
}

impl View for ContractVk {
    type V = ContractVkView;

    open spec fn view(&self) -> ContractVkView {
        ContractVkView {
            alfa_1: self.alfa_1@,
            beta_2: self.beta_2@,
            gamma_2: self.gamma_2@,
            delta_2: self.delta_2@,
            ic: self.ic@.map_values(|g: ContractG1| g@),
        }
    }
}

pub open spec fn spec_to_contract_vk(v: VkView) -> ContractVkView {
    ContractVkView {
        alfa_1: spec_to_contract_g1(v.alpha),
        beta_2: spec_to_contract_g2(v.beta),
        gamma_2: spec_to_contract_g2(v.gamma),
        delta_2: spec_to_contract_g2(v.delta),
        ic: v.ic.map_values(|g: BnG1View| spec_to_contract_g1(g)),
    }
}

/// Converts a verifying key for the contract.  The caller states how many
/// public inputs it will submit; a key whose `ic` sequence does not hold
/// exactly one more point than that is rejected rather than truncated.
pub fn to_contract_vk(vk: &VkRepr, n_inputs: usize) -> (r: Result<ContractVk, ApkError>)
    ensures
        r is Ok <==> vk.ic@.len() == n_inputs + 1,
        match r {
            Ok(c) => c@ == spec_to_contract_vk(vk@),
            Err(e) => e == ApkError::Adapter,
        },
{
    if vk.ic.len() == 0 || vk.ic.len() - 1 != n_inputs {
        return Err(ApkError::Adapter);
    }
    let mut ic: Vec<ContractG1> = Vec::new();
    let mut i: usize = 0;
    while i < vk.ic.len()
        invariant
            i <= vk.ic@.len(),
            ic@.len() == i,
            forall|j: int| 0 <= j < i ==> ic@[j]@ == spec_to_contract_g1(vk.ic@[j]@),
        decreases vk.ic@.len() - i,
    {
        ic.push(to_contract_g1(&vk.ic[i]));
        i = i + 1;
    }
    proof {
        assert(ic@.map_values(|g: ContractG1| g@)
            =~= vk.ic@.map_values(|g: BnG1| g@)
                .map_values(|g: BnG1View| spec_to_contract_g1(g)));
    }
    Ok(ContractVk {
        alfa_1: to_contract_g1(&vk.alpha),
        beta_2: to_contract_g2(&vk.beta),
        gamma_2: to_contract_g2(&vk.gamma),
        delta_2: to_contract_g2(&vk.delta),
        ic,
    })
}

} // verus!
