use waterfall::random::{make_random_vec, Random};

#[test]
fn generator_follows_the_recurrence() {
    let mut rand = Random::new(0);
    assert_eq!(rand.next_rand(), 110);
    assert_eq!(rand.next_rand(), 80);
    assert_eq!(rand.next_rand(), 204);
    assert_eq!(rand.next_rand(), 249);
    let mut rand = Random::new(7);
    assert_eq!(rand.next_rand(), 32);
    assert_eq!(rand.next_rand(), 218);
    assert_eq!(rand.next_rand(), 204);
}

#[test]
fn clamp_drops_sixteen_bits() {
    let rand = Random::new(1);
    assert_eq!(rand.clamp_low_bits(&0xABCD_1234), 0xABCD);
    assert_eq!(rand.clamp_low_bits(&0xFFFF), 0);
}

#[test]
fn random_vec_is_the_output_of_the_generator() {
    assert_eq!(make_random_vec(8, 0xDEAD), vec![24, 193, 86, 42, 8, 57, 24, 139]);
    assert_eq!(make_random_vec(0, 0xDEAD), Vec::<u8>::new());
    assert_eq!(make_random_vec(32, 0xDEAD).len(), 32);
}
