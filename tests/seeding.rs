use prng_benchmark::{
    Lehmer64, Mwc256XXA64, Pcg64, Pcg64Fast, Random, RomuJr, RomuTrio, SeedError, Splitmix64,
    Tylo64, Wyrand, Xoshiro256plusplus,
};

#[test]
fn seed_words_are_forced_odd() {
    assert_eq!(Splitmix64::from_seed_words(4).state, 5);
    assert_eq!(Wyrand::from_seed_words(7).state, 7);
    assert_eq!(RomuJr::from_seed_words(0, 2), RomuJr { x: 1, y: 3 });
    assert_eq!(RomuTrio::from_seed_words(0, 2, 5), RomuTrio { x: 1, y: 3, z: 5 });
    assert_eq!(
        Xoshiro256plusplus::from_seed_words(0, 2, 4, 6),
        Xoshiro256plusplus { s0: 1, s1: 3, s2: 5, s3: 7 }
    );
    assert_eq!(
        Mwc256XXA64::from_seed_words(8, 9, 10, 11),
        Mwc256XXA64 { x1: 9, x2: 9, x3: 11, c: 11 }
    );
}

#[test]
fn tylo64_even_increment_moves_down() {
    assert_eq!(Tylo64::from_seed_words(10, 2, 4, 6), Tylo64 { a: 3, b: 5, w: 7, k: 9 });
    assert_eq!(Tylo64::from_seed_words(11, 1, 1, 1).k, 11);
    assert_eq!(Tylo64::from_seed_words(0, 1, 1, 1).k, u64::MAX);
}

#[test]
fn wide_states_join_high_then_low() {
    assert_eq!(Lehmer64::from_seed_words(1, 0).state, (1u128 << 64) | 1);
    assert_eq!(Pcg64Fast::from_seed_words(0xAB, 0x10).state, (0xABu128 << 64) | 0x11);
    let p = Pcg64::from_seed_words(2, 4, u64::MAX, u64::MAX);
    assert_eq!(p.state, (2u128 << 64) | 5);
    assert_eq!(p.inc, u128::MAX);
}

#[test]
fn placeholder_words_are_three() {
    assert_eq!(Tylo64::placeholder(), Tylo64 { a: 3, b: 3, w: 3, k: 3 });
    assert_eq!(Lehmer64::placeholder().state, 3);
    assert_eq!(Pcg64::placeholder(), Pcg64 { state: 3, inc: 3 });
}

fn draws_vary<G: Random + Copy>() -> Result<(), SeedError> {
    let mut a = G::new()?;
    let mut b = G::new()?;
    let mut same = true;
    let mut sentinel = false;
    for _ in 0..10 {
        let x = a.u64();
        let y = b.u64();
        if x != y {
            same = false;
        }
        if x == 3 || y == 3 {
            sentinel = true;
        }
    }
    assert!(!same);
    assert!(!sentinel);
    Ok(())
}

#[test]
fn fresh_instances_draw_distinct_streams() {
    draws_vary::<Lehmer64>().unwrap();
    draws_vary::<Mwc256XXA64>().unwrap();
    draws_vary::<Pcg64>().unwrap();
    draws_vary::<Pcg64Fast>().unwrap();
    draws_vary::<Splitmix64>().unwrap();
    draws_vary::<Tylo64>().unwrap();
    draws_vary::<RomuJr>().unwrap();
    draws_vary::<RomuTrio>().unwrap();
    draws_vary::<Wyrand>().unwrap();
    draws_vary::<Xoshiro256plusplus>().unwrap();
}

#[test]
fn seed_makes_required_words_odd() {
    let mut l = Lehmer64 { state: 2 };
    l.seed().unwrap();
    assert_eq!(l.state % 2, 1);
    let mut p = Pcg64 { state: 2, inc: 2 };
    p.seed().unwrap();
    assert_eq!(p.state % 2, 1);
    assert_eq!(p.inc % 2, 1);
    let mut t = Tylo64 { a: 2, b: 2, w: 2, k: 2 };
    t.seed().unwrap();
    assert_eq!(t.k % 2, 1);
    assert_eq!(t.a % 2, 1);
    let mut x = Xoshiro256plusplus { s0: 0, s1: 0, s2: 0, s3: 0 };
    x.seed().unwrap();
    assert_eq!([x.s0 % 2, x.s1 % 2, x.s2 % 2, x.s3 % 2], [1, 1, 1, 1]);
}

#[test]
fn new_instances_have_every_seeded_word_odd() {
    let x = Xoshiro256plusplus::new().unwrap();
    assert_eq!([x.s0 % 2, x.s1 % 2, x.s2 % 2, x.s3 % 2], [1, 1, 1, 1]);
    let m = Mwc256XXA64::new().unwrap();
    assert_eq!([m.x1 % 2, m.x2 % 2, m.x3 % 2, m.c % 2], [1, 1, 1, 1]);
    let p = Pcg64::new().unwrap();
    assert_eq!((p.state % 2, p.inc % 2), (1, 1));
    let t = Tylo64::new().unwrap();
    assert_eq!([t.a % 2, t.b % 2, t.w % 2, t.k % 2], [1, 1, 1, 1]);
    let j = RomuJr::new().unwrap();
    assert_eq!((j.x % 2, j.y % 2), (1, 1));
    let r = RomuTrio::new().unwrap();
    assert_eq!([r.x % 2, r.y % 2, r.z % 2], [1, 1, 1]);
    assert_eq!(Wyrand::new().unwrap().state % 2, 1);
    assert_eq!(Splitmix64::new().unwrap().state % 2, 1);
    assert_eq!(Pcg64Fast::new().unwrap().state % 2, 1);
    assert_eq!(Lehmer64::new().unwrap().state % 2, 1);
}
