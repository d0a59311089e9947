use snowball::fields::FpElem;
use snowball::adapter::{Fp2Elem, BnG1, BnG2, ProofRepr, VkRepr, to_contract_g1, to_contract_g2,
    from_contract_g2, to_contract_proof, to_contract_vk};
use snowball::ApkError;

fn fp(w: u64) -> FpElem {
    FpElem::from_words(vec![w, 0, 0, 0]).unwrap()
}

fn fp2(c0: u64, c1: u64) -> Fp2Elem {
    Fp2Elem { c0: fp(c0), c1: fp(c1) }
}

fn g1(x: u64, y: u64) -> BnG1 {
    BnG1 { x: fp(x), y: fp(y) }
}

fn g2(x0: u64, x1: u64, y0: u64, y1: u64) -> BnG2 {
    BnG2 { x: fp2(x0, x1), y: fp2(y0, y1) }
}

#[test]
fn contract_g1_is_direct_copy() {
    let c = to_contract_g1(&g1(10, 20));
    assert_eq!(c.x.words, vec![10, 0, 0, 0]);
    assert_eq!(c.y.words, vec![20, 0, 0, 0]);
}

#[test]
fn contract_g2_swaps_components() {
    // the twist coordinate pair is emitted second component first
    let c = to_contract_g2(&g2(1, 2, 3, 4));
    assert_eq!(c.x_a.words, vec![2, 0, 0, 0]);
    assert_eq!(c.x_b.words, vec![1, 0, 0, 0]);
    assert_eq!(c.y_a.words, vec![4, 0, 0, 0]);
    assert_eq!(c.y_b.words, vec![3, 0, 0, 0]);
}

#[test]
fn contract_g2_round_trip() {
    let p = g2(5, 6, 7, 8);
    let back = from_contract_g2(&to_contract_g2(&p));
    assert_eq!(back.x.c0.words, p.x.c0.words);
    assert_eq!(back.x.c1.words, p.x.c1.words);
    assert_eq!(back.y.c0.words, p.y.c0.words);
    assert_eq!(back.y.c1.words, p.y.c1.words);
}

#[test]
fn contract_proof_layout() {
    let p = ProofRepr { a: g1(1, 2), b: g2(3, 4, 5, 6), c: g1(7, 8) };
    let cp = to_contract_proof(&p);
    assert_eq!(cp.a.x.words, vec![1, 0, 0, 0]);
    assert_eq!(cp.b.x_a.words, vec![4, 0, 0, 0]);
    assert_eq!(cp.b.x_b.words, vec![3, 0, 0, 0]);
    assert_eq!(cp.c.y.words, vec![8, 0, 0, 0]);
}

#[test]
fn contract_vk_maps_all_parts() {
    let vk = VkRepr {
        alpha: g1(1, 2),
        beta: g2(3, 4, 5, 6),
        gamma: g2(7, 8, 9, 10),
        delta: g2(11, 12, 13, 14),
        ic: vec![g1(15, 16), g1(17, 18)],
    };
    let c = to_contract_vk(&vk, 1).unwrap();
    assert_eq!(c.alfa_1.x.words, vec![1, 0, 0, 0]);
    assert_eq!(c.beta_2.x_a.words, vec![4, 0, 0, 0]);
    assert_eq!(c.gamma_2.y_a.words, vec![10, 0, 0, 0]);
    assert_eq!(c.delta_2.y_b.words, vec![13, 0, 0, 0]);
    assert_eq!(c.ic.len(), 2);
    assert_eq!(c.ic[1].x.words, vec![17, 0, 0, 0]);
}

#[test]
fn contract_vk_rejects_length_mismatch() {
    let vk = VkRepr {
        alpha: g1(1, 2),
        beta: g2(3, 4, 5, 6),
        gamma: g2(7, 8, 9, 10),
        delta: g2(11, 12, 13, 14),
        ic: vec![g1(15, 16), g1(17, 18)],
    };
    // two ic points serve exactly one public input, nothing else
    assert_eq!(to_contract_vk(&vk, 0).err(), Some(ApkError::Adapter));
    assert_eq!(to_contract_vk(&vk, 2).err(), Some(ApkError::Adapter));
}
