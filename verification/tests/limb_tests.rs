use snowball::fields::{FqElem, FrElem, Q_W0, Q_W1, Q_W2, Q_W3, Q_W4, Q_W5};
use snowball::limbs::{fq_limbs, encode_elements, decode_limbs};
use snowball::ApkError;

#[test]
fn limb_split_exact() {
    let x = FqElem::from_words(vec![1, 2, 3, 4, 5, 6]).unwrap();
    let (hi, lo) = fq_limbs(&x);
    assert_eq!(hi.words, vec![4, 5, 6, 0]);
    assert_eq!(lo.words, vec![1, 2, 3, 0]);
}

#[test]
fn limb_round_trip_simple() {
    let x = FqElem::from_words(vec![7, 0, 0, 0, 0, 0]).unwrap();
    let (hi, lo) = fq_limbs(&x);
    let back = decode_limbs(&hi, &lo).unwrap();
    assert_eq!(back.words, vec![7, 0, 0, 0, 0, 0]);
}

#[test]
fn limb_round_trip_full_width() {
    let words = vec![
        0xdeadbeefcafef00d,
        0x0123456789abcdef,
        0xfedcba9876543210,
        0x1111222233334444,
        0x5555666677778888,
        0x19999aaaabbbbccc,
    ];
    let x = FqElem::from_words(words.clone()).unwrap();
    let (hi, lo) = fq_limbs(&x);
    let back = decode_limbs(&hi, &lo).unwrap();
    assert_eq!(back.words, words);
}

#[test]
fn encode_elements_order() {
    let a = FqElem::from_words(vec![1, 0, 0, 2, 0, 0]).unwrap();
    let b = FqElem::from_words(vec![3, 0, 0, 4, 0, 0]).unwrap();
    let out = encode_elements(&vec![a, b]);
    assert_eq!(out.len(), 4);
    // most significant limb of each element first, elements in input order
    assert_eq!(out[0].words, vec![2, 0, 0, 0]);
    assert_eq!(out[1].words, vec![1, 0, 0, 0]);
    assert_eq!(out[2].words, vec![4, 0, 0, 0]);
    assert_eq!(out[3].words, vec![3, 0, 0, 0]);
}

#[test]
fn fq_from_words_rejects_wrong_length() {
    assert_eq!(FqElem::from_words(vec![1, 2, 3]).err(), Some(ApkError::Encoding));
}

#[test]
fn fq_from_words_rejects_modulus() {
    // exactly the field's order: one too large
    let q = vec![Q_W0, Q_W1, Q_W2, Q_W3, Q_W4, Q_W5];
    assert_eq!(FqElem::from_words(q).err(), Some(ApkError::Encoding));
    // one below the order is accepted
    let mut below = vec![Q_W0 - 1, Q_W1, Q_W2, Q_W3, Q_W4, Q_W5];
    assert!(FqElem::from_words(below.clone()).is_ok());
    below[0] = Q_W0;
    assert!(FqElem::from_words(below).is_err());
}

#[test]
fn decode_rejects_wide_limb() {
    // a limb with its top word set does not fit the 192-bit window
    let hi = FrElem::from_words(vec![0, 0, 0, 1]).unwrap();
    let lo = FrElem::from_words(vec![5, 0, 0, 0]).unwrap();
    assert_eq!(decode_limbs(&hi, &lo).err(), Some(ApkError::Encoding));
}

#[test]
fn decode_rejects_out_of_field() {
    // recombines to a value at or above the field's order
    let hi = FrElem::from_words(vec![Q_W3, Q_W4, Q_W5, 0]).unwrap();
    let lo = FrElem::from_words(vec![Q_W0, Q_W1, Q_W2, 0]).unwrap();
    assert_eq!(decode_limbs(&hi, &lo).err(), Some(ApkError::Encoding));
}
