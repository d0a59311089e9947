use snowball::fields::FqElem;
use snowball::circuit::{pack_bits, keys_to_limbs, public_inputs, ApkCircuit};
use snowball::point::G1Point;

fn point(xw: u64, yw: u64) -> G1Point {
    G1Point::from_words(
        vec![xw, 0, 0, 0, 0, 0],
        vec![yw, 0, 0, 0, 0, 0],
        false,
    ).unwrap()
}

#[test]
fn pack_bits_small() {
    // [true, false, true] packs little-endian to 1 + 4 = 5
    let p = pack_bits(&vec![true, false, true]);
    assert_eq!(p.words, vec![5, 0, 0, 0]);
}

#[test]
fn pack_bits_empty() {
    let p = pack_bits(&vec![]);
    assert_eq!(p.words, vec![0, 0, 0, 0]);
}

#[test]
fn pack_bits_crosses_word() {
    // bit 64 lands in the second word
    let mut bits = vec![false; 65];
    bits[64] = true;
    bits[0] = true;
    let p = pack_bits(&bits);
    assert_eq!(p.words, vec![1, 1, 0, 0]);
}

#[test]
fn pack_bits_max_width() {
    // all 253 bits set: 2^253 - 1
    let bits = vec![true; 253];
    let p = pack_bits(&bits);
    assert_eq!(
        p.words,
        vec![u64::MAX, u64::MAX, u64::MAX, 0x1fffffffffffffff],
    );
}

#[test]
fn pack_bits_detects_flip() {
    // altering one bit of the selector changes the packed public input:
    // a proof built for [1,0,1] cannot be passed off as [1,1,1]
    let honest = pack_bits(&vec![true, false, true]);
    let altered = pack_bits(&vec![true, true, true]);
    assert_eq!(honest.words, vec![5, 0, 0, 0]);
    assert_eq!(altered.words, vec![7, 0, 0, 0]);
    assert_ne!(honest.words, altered.words);
}

#[test]
fn public_input_layout() {
    // one key: its four limbs, then the packed scalar, then the aggregate
    let key = point(11, 22);
    let agg = point(33, 44);
    let seed = point(55, 66);
    let bits = vec![true];
    let c = ApkCircuit::build(vec![key], seed, &bits, agg);
    let pi = public_inputs(&c);
    assert_eq!(pi.len(), 9);
    assert_eq!(pi[0].words, vec![0, 0, 0, 0]);   // key.x high limb
    assert_eq!(pi[1].words, vec![11, 0, 0, 0]);  // key.x low limb
    assert_eq!(pi[2].words, vec![0, 0, 0, 0]);   // key.y high limb
    assert_eq!(pi[3].words, vec![22, 0, 0, 0]);  // key.y low limb
    assert_eq!(pi[4].words, vec![1, 0, 0, 0]);   // packed bits
    assert_eq!(pi[5].words, vec![0, 0, 0, 0]);   // aggregate.x high limb
    assert_eq!(pi[6].words, vec![33, 0, 0, 0]);  // aggregate.x low limb
    assert_eq!(pi[7].words, vec![0, 0, 0, 0]);   // aggregate.y high limb
    assert_eq!(pi[8].words, vec![44, 0, 0, 0]);  // aggregate.y low limb
}

#[test]
fn public_input_layout_empty_keys() {
    // no keys: just the packed scalar and the aggregate limbs
    let agg = point(9, 8);
    let seed = point(9, 8);
    let c = ApkCircuit::build(vec![], seed, &vec![], agg);
    let pi = public_inputs(&c);
    assert_eq!(pi.len(), 5);
    assert_eq!(pi[0].words, vec![0, 0, 0, 0]);  // packed bits
    assert_eq!(pi[1].words, vec![0, 0, 0, 0]);  // aggregate.x high limb
    assert_eq!(pi[2].words, vec![9, 0, 0, 0]);  // aggregate.x low limb
    assert_eq!(pi[4].words, vec![8, 0, 0, 0]);  // aggregate.y low limb
}

#[test]
fn keys_to_limbs_order() {
    let k0 = point(1, 2);
    let k1 = point(3, 4);
    let out = keys_to_limbs(&vec![k0, k1]);
    assert_eq!(out.len(), 8);
    assert_eq!(out[1].words, vec![1, 0, 0, 0]);
    assert_eq!(out[3].words, vec![2, 0, 0, 0]);
    assert_eq!(out[5].words, vec![3, 0, 0, 0]);
    assert_eq!(out[7].words, vec![4, 0, 0, 0]);
}

#[test]
fn circuit_new_keeps_parts() {
    let key = point(1, 2);
    let seed = point(3, 4);
    let agg = point(5, 6);
    let packed = pack_bits(&vec![true]);
    let c = ApkCircuit::new(vec![key], seed, packed, agg);
    assert_eq!(c.keys.len(), 1);
    assert_eq!(c.packed_bits.words, vec![1, 0, 0, 0]);
    assert_eq!(c.seed.x.words, vec![3, 0, 0, 0, 0, 0]);
    assert_eq!(c.aggregate.y.words, vec![6, 0, 0, 0, 0, 0]);
}

#[test]
fn fq_elem_duplicate_is_equal() {
    let x = FqElem::from_words(vec![1, 2, 3, 4, 5, 6]).unwrap();
    let y = x.duplicate();
    assert_eq!(x.words, y.words);
}
