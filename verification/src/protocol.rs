//! The verification protocol's decision core.
//!
//! The SNARK backend is an external collaborator: its proof and verifying
//! key are opaque values this module carries through, and its verifier is
//! called behind one trusted wrapper.  What the protocol itself decides —
//! how a backend failure is surfaced and when the off-chain and on-chain
//! results agree — is verified here, for every value the backend can
//! return.

use vstd::prelude::*;
use ark_bn254::Bn254;
use ark_ff::{BigInt, PrimeField};
use ark_groth16::Groth16;
use ark_snark::SNARK;
use crate::fields::FrElem;
use crate::point::{G1Point, compute_apk, apk_fold, g1_views};
use crate::circuit::{ApkCircuit, public_inputs, public_input_values, circuit_satisfied_with};
use crate::ApkError;

verus! {

/// Prepares one proof session from its raw material: computes the
/// aggregate by the group law, builds the circuit instance the prover
/// must satisfy, and emits the public-input vector in the layout both
/// verifiers consume.  The instance returned is satisfied by the given
/// bits — honest preparation is complete.
pub fn prepare_session(keys: Vec<G1Point>, seed: G1Point, bits: &Vec<bool>)
    -> (r: (ApkCircuit, Vec<FrElem>))
    requires
        bits@.len() == keys@.len() <= 253,
        seed.wf(),
        forall|i: int| 0 <= i < keys@.len() ==> keys@[i].wf(),
    ensures
        r.0.wf(),
        r.0@.aggregate == apk_fold(seed@, g1_views(keys@), bits@),
        circuit_satisfied_with(r.0@, bits@),
        r.1@.map_values(|f: FrElem| f.value())
            == public_input_values(r.0@.keys, r.0@.packed, r.0@.aggregate),
        forall|i: int| 0 <= i < r.1@.len() ==> r.1@[i].wf(),
        r.1@.len() == 4 * keys@.len() + 5,
{
    let aggregate = compute_apk(seed.duplicate(), &keys, bits);
    let circuit = ApkCircuit::build(keys, seed, bits, aggregate);
    let inputs = public_inputs(&circuit);
    (circuit, inputs)
}

#[verifier::external_type_specification]
#[verifier::external_body]
pub struct ExSynthesisError(ark_relations::r1cs::SynthesisError);

/// An opaque proof from the SNARK backend, carried through unread.
///
/// The backend's proof type is generic over its pairing engine, and the
/// verifier refuses a type declaration bound by that outside trait, so
/// the value is held in a hidden field instead.
#[verifier::external_body]
pub struct SnarkProof {
    pub inner: ark_groth16::Proof<ark_bn254::Bn254>,
}

/// An opaque verifying key from the SNARK backend, carried through
/// unread, for the same reason as the proof.
#[verifier::external_body]
pub struct SnarkVerifyingKey {
    pub inner: ark_groth16::VerifyingKey<ark_bn254::Bn254>,
}

/// The number of public inputs a backend verifying key serves: one fewer
/// than the points its input-commitment sequence holds.
pub uninterp spec fn vk_input_count(vk: SnarkVerifyingKey) -> nat;

/// Whether the backend's pairing check is defined for these arguments:
/// its final exponentiation is of an invertible element.  A function of
/// the arguments alone.
pub uninterp spec fn groth16_defined(
    vk: SnarkVerifyingKey,
    inputs: Seq<nat>,
    proof: SnarkProof,
) -> bool;

/// The verdict of the backend's pairing check: a pure function of the
/// verifying key, the public-input values and the proof.
pub uninterp spec fn groth16_verdict(
    vk: SnarkVerifyingKey,
    inputs: Seq<nat>,
    proof: SnarkProof,
) -> bool;

/// Runs the native Groth16 pairing check.
///
/// Relies on `ark_groth16`'s `Groth16::<Bn254>::verify` (through the
/// `ark_snark::SNARK` trait) and `ark_ff`'s `PrimeField::from_bigint` for
/// the public inputs.  The backend returns its verdict, a pure function
/// of the arguments; it errs exactly when the input count disagrees with
/// the key's shape (`MalformedVerifyingKey`) or the check's final
/// exponentiation is undefined (`UnexpectedIdentity`).  The well-formed
/// inputs required here convert without panicking.
#[verifier::external_body]
fn groth16_verify_call(
    vk: &SnarkVerifyingKey,
    inputs: &Vec<FrElem>,
    proof: &SnarkProof,
) -> (r: Result<bool, ark_relations::r1cs::SynthesisError>)
    requires
        forall|i: int| 0 <= i < inputs@.len() ==> inputs@[i].wf(),
    ensures
        r is Ok <==> (inputs@.len() == vk_input_count(*vk)
            && groth16_defined(*vk, inputs@.map_values(|f: FrElem| f.value()), *proof)),
        r matches Ok(b)
            ==> b == groth16_verdict(*vk, inputs@.map_values(|f: FrElem| f.value()), *proof),
{
    let ins: Vec<ark_bn254::Fr> = inputs.iter().map(|x| {
        PrimeField::from_bigint(BigInt(x.words.clone().try_into().unwrap())).unwrap()
    }).collect();
    Groth16::<Bn254>::verify(&vk.inner, &ins, &proof.inner)
}

/// Verifies a proof off-chain against the public-input vector: the
/// backend's verdict is returned exactly as computed, and a backend
/// error — a key whose shape disagrees with the inputs, or an undefined
/// pairing check — is surfaced as an adapter error, never swallowed.
pub fn verify_off_chain(
    vk: &SnarkVerifyingKey,
    inputs: &Vec<FrElem>,
    proof: &SnarkProof,
) -> (r: Result<bool, ApkError>)
    requires
        forall|i: int| 0 <= i < inputs@.len() ==> inputs@[i].wf(),
    ensures
        r is Ok <==> (inputs@.len() == vk_input_count(*vk)
            && groth16_defined(*vk, inputs@.map_values(|f: FrElem| f.value()), *proof)),
        r matches Ok(b)
            ==> b == groth16_verdict(*vk, inputs@.map_values(|f: FrElem| f.value()), *proof),
        r is Err ==> r == Err::<bool, ApkError>(ApkError::Adapter),
{
    match groth16_verify_call(vk, inputs, proof) {
        Ok(b) => Ok(b),
        Err(_) => Err(ApkError::Adapter),
    }
}

/// The agreement rule for one proof session: the session's verdict is the
/// shared result when the off-chain and on-chain verifications agree, and
/// a fatal mismatch error — never a silent choice of one side — when they
/// do not.
pub fn conclude_agreement(off_chain: bool, on_chain: bool) -> (r: Result<bool, ApkError>)
    ensures
        off_chain == on_chain ==> r == Ok::<bool, ApkError>(off_chain),
        off_chain != on_chain ==> r == Err::<bool, ApkError>(ApkError::Mismatch),
{
    if off_chain == on_chain {
        Ok(off_chain)
    } else {
        Err(ApkError::Mismatch)
    }
}

/// The transport rule for the on-chain call: a call that did not execute
/// is a transport error, and an executed call hands its verdict on to the
/// agreement rule unchanged.
pub fn conclude_session(off_chain: bool, on_chain: Option<bool>) -> (r: Result<bool, ApkError>)
    ensures
        on_chain is None ==> r == Err::<bool, ApkError>(ApkError::Transport),
        on_chain matches Some(b) && off_chain == b
            ==> r == Ok::<bool, ApkError>(off_chain),
        on_chain matches Some(b) && off_chain != b
            ==> r == Err::<bool, ApkError>(ApkError::Mismatch),
{
    match on_chain {
        None => Err(ApkError::Transport),
        Some(b) => conclude_agreement(off_chain, b),
    }
}

} // verus!
