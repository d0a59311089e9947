use ark_bls12_381::G1Affine;
use ark_ec::{AffineRepr, CurveGroup};
use ark_ff::PrimeField;
use snowball::limbs::decode_limbs;
use snowball::point::{G1Point, compute_apk};
use snowball::protocol::prepare_session;

fn to_lib(p: &G1Affine) -> G1Point {
    G1Point::from_words(
        p.x.into_bigint().0.to_vec(),
        p.y.into_bigint().0.to_vec(),
        p.infinity,
    ).unwrap()
}

fn multiple(n: u64) -> G1Affine {
    let g = G1Affine::generator();
    let mut acc = g.into_group();
    for _ in 1..n {
        acc += g;
    }
    acc.into_affine()
}

#[test]
fn aggregate_matches_curve_library() {
    // n = 3, bits [true, false, true]: aggregate = seed + k0 + k2
    let k0 = multiple(1);
    let k1 = multiple(2);
    let k2 = multiple(3);
    let seed = multiple(4);
    let expected = (seed.into_group() + k0 + k2).into_affine();

    let keys = vec![to_lib(&k0), to_lib(&k1), to_lib(&k2)];
    let bits = vec![true, false, true];
    let apk = compute_apk(to_lib(&seed), &keys, &bits);

    let exp = to_lib(&expected);
    assert_eq!(apk.x.words, exp.x.words);
    assert_eq!(apk.y.words, exp.y.words);
    assert_eq!(apk.infinity, exp.infinity);
}

#[test]
fn aggregate_all_false_is_seed() {
    // no bit set: the aggregate is exactly the seed
    let keys = vec![to_lib(&multiple(1)), to_lib(&multiple(2))];
    let seed = multiple(7);
    let apk = compute_apk(to_lib(&seed), &keys, &vec![false, false]);
    let s = to_lib(&seed);
    assert_eq!(apk.x.words, s.x.words);
    assert_eq!(apk.y.words, s.y.words);
}

#[test]
fn aggregate_empty_keys_is_seed() {
    // n = 0 degenerates to aggregate == seed
    let seed = multiple(9);
    let apk = compute_apk(to_lib(&seed), &vec![], &vec![]);
    let s = to_lib(&seed);
    assert_eq!(apk.x.words, s.x.words);
    assert_eq!(apk.y.words, s.y.words);
}

#[test]
fn aggregate_single_addition_moves() {
    // one selected key really adds: the result differs from the seed and
    // matches the curve library's sum
    let k = multiple(2);
    let seed = multiple(5);
    let apk = compute_apk(to_lib(&seed), &vec![to_lib(&k)], &vec![true]);
    let expected = to_lib(&(seed.into_group() + k).into_affine());
    assert_eq!(apk.x.words, expected.x.words);
    assert_eq!(apk.y.words, expected.y.words);
    assert_ne!(apk.x.words, to_lib(&seed).x.words);
}

#[test]
fn aggregate_from_infinity_seed() {
    // the identity as seed: summing one key gives that key back
    let k = multiple(3);
    let zero = G1Affine::zero();
    let apk = compute_apk(to_lib(&zero), &vec![to_lib(&k)], &vec![true]);
    let exp = to_lib(&k);
    assert_eq!(apk.x.words, exp.x.words);
    assert_eq!(apk.y.words, exp.y.words);
    assert_eq!(apk.infinity, false);
}

#[test]
fn aggregate_limbs_decode_back() {
    // the aggregate limbs in the public-input vector recombine to the
    // aggregate's true curve coordinates
    let k = multiple(2);
    let seed = multiple(3);
    let (circuit, inputs) = prepare_session(vec![to_lib(&k)], to_lib(&seed), &vec![true]);
    let expected = (seed.into_group() + k).into_affine();
    let x = decode_limbs(&inputs[5], &inputs[6]).unwrap();
    let y = decode_limbs(&inputs[7], &inputs[8]).unwrap();
    assert_eq!(x.words, circuit.aggregate.x.words);
    assert_eq!(y.words, circuit.aggregate.y.words);
    assert_eq!(x.words, expected.x.into_bigint().0.to_vec());
    assert_eq!(y.words, expected.y.into_bigint().0.to_vec());
}

#[test]
fn point_from_words_rejects_bad_coordinate() {
    assert!(G1Point::from_words(vec![1, 2, 3], vec![0, 0, 0, 0, 0, 0], false).is_err());
}
