use kickmess::helpers::{next_xoroshiro128, RandGen};

#[test]
fn xoroshiro_step_from_seed() {
    let mut state = [0x193a6754a8a7d469u64, 0x97830e05113ba7bb];
    let r = next_xoroshiro128(&mut state);
    assert_eq!(r, 0xb0bd7559b9e37c24);
    assert_eq!(state, [0xe0619a050f3ca038, 0x99c73d28eb96951b]);
}

#[test]
fn xoroshiro_output_is_wrapping_sum() {
    let mut state = [u64::MAX, 2];
    let r = next_xoroshiro128(&mut state);
    assert_eq!(r, 1);
}

#[test]
fn xoroshiro_zero_state_stays_zero() {
    let mut state = [0u64, 0];
    for _ in 0..10 {
        assert_eq!(next_xoroshiro128(&mut state), 0);
        assert_eq!(state, [0, 0]);
    }
}

#[test]
fn xoroshiro_nonzero_state_stays_nonzero() {
    let mut state = [1u64, 0];
    for _ in 0..1000 {
        next_xoroshiro128(&mut state);
        assert!(state != [0, 0]);
    }
}

#[test]
fn randgen_sequence_from_seed() {
    let mut g = RandGen::new();
    assert_eq!(g.next(), 0xb0bd7559b9e37c24);
    assert_eq!(g.next(), 0x7a28d72dfad33553);
    assert_eq!(g.next(), 0x16c1410205cfde51);
    assert_eq!(g.next(), 0xa1596921be3dbaf7);
}

#[test]
fn randgen_new_generators_agree() {
    let mut a = RandGen::new();
    let mut b = RandGen::new();
    assert_eq!(a, b);
    for _ in 0..100 {
        assert_eq!(a.next(), b.next());
    }
    assert_eq!(a, b);
}
