use prng_benchmark::{
    lehmer64_u64, mwc256xxa64_seed, mwc256xxa64_u64, pcg64_seed, pcg64_u64, pcg64fast_u64,
    romu_jr_u64, romu_trio_seed, romu_trio_u64, splitmix64_seed, splitmix64_u64, tylo64_seed,
    tylo64_u64, wyrand_seed, wyrand_u64, xoshiro256plusplus_u64, lehmer64_seed,
    pcg64fast_seed, romu_jr_seed, xoshiro256plusplus_seed, Random, ThreadRngs,
};

#[test]
fn first_draw_seeds_the_instance() {
    let mut rngs = ThreadRngs::new();
    assert!(!rngs.splitmix64.seeded);
    assert_eq!(rngs.splitmix64.rng.state, 3);
    splitmix64_u64(&mut rngs).unwrap();
    assert!(rngs.splitmix64.seeded);
    assert!(!rngs.wyrand.seeded);
}

#[test]
fn later_draws_only_advance() {
    let mut rngs = ThreadRngs::new();
    lehmer64_u64(&mut rngs).unwrap();
    let mut copy = rngs.lehmer64.rng;
    for _ in 0..5 {
        assert_eq!(lehmer64_u64(&mut rngs).unwrap(), copy.u64());
    }
    assert_eq!(rngs.lehmer64.rng, copy);
    assert_eq!(rngs.lehmer64.rng.state % 2, 1);
}

#[test]
fn reseed_changes_stream_of_one_family_only() {
    let mut rngs = ThreadRngs::new();
    pcg64_u64(&mut rngs).unwrap();
    romu_jr_u64(&mut rngs).unwrap();
    let before = rngs.pcg64.rng;
    let other = rngs.romu_jr.rng;
    pcg64_seed(&mut rngs).unwrap();
    assert!(rngs.pcg64.seeded);
    assert_ne!(rngs.pcg64.rng, before);
    assert_eq!(rngs.romu_jr.rng, other);
}

#[test]
fn two_threads_do_not_share_instances() {
    let mut t1 = ThreadRngs::new();
    let mut t2 = ThreadRngs::new();
    xoshiro256plusplus_u64(&mut t1).unwrap();
    let snapshot = t1.xoshiro256plusplus.rng;
    for _ in 0..50 {
        xoshiro256plusplus_u64(&mut t2).unwrap();
    }
    xoshiro256plusplus_seed(&mut t2).unwrap();
    assert_eq!(t1.xoshiro256plusplus.rng, snapshot);
    let mut expect = snapshot;
    assert_eq!(xoshiro256plusplus_u64(&mut t1).unwrap(), expect.u64());
}

#[test]
fn every_family_draws_and_reseeds() {
    let mut rngs = ThreadRngs::new();
    tylo64_u64(&mut rngs).unwrap();
    romu_jr_u64(&mut rngs).unwrap();
    romu_trio_u64(&mut rngs).unwrap();
    lehmer64_u64(&mut rngs).unwrap();
    mwc256xxa64_u64(&mut rngs).unwrap();
    wyrand_u64(&mut rngs).unwrap();
    splitmix64_u64(&mut rngs).unwrap();
    xoshiro256plusplus_u64(&mut rngs).unwrap();
    pcg64_u64(&mut rngs).unwrap();
    pcg64fast_u64(&mut rngs).unwrap();
    assert!(rngs.tylo64.seeded && rngs.romu_jr.seeded && rngs.romu_trio.seeded);
    assert!(rngs.lehmer64.seeded && rngs.mwc256xxa64.seeded && rngs.wyrand.seeded);
    assert!(rngs.splitmix64.seeded && rngs.xoshiro256plusplus.seeded);
    assert!(rngs.pcg64.seeded && rngs.pcg64fast.seeded);
    tylo64_seed(&mut rngs).unwrap();
    romu_jr_seed(&mut rngs).unwrap();
    romu_trio_seed(&mut rngs).unwrap();
    lehmer64_seed(&mut rngs).unwrap();
    mwc256xxa64_seed(&mut rngs).unwrap();
    wyrand_seed(&mut rngs).unwrap();
    splitmix64_seed(&mut rngs).unwrap();
    pcg64fast_seed(&mut rngs).unwrap();
    assert_eq!(rngs.tylo64.rng.k % 2, 1);
    assert_eq!(rngs.pcg64fast.rng.state % 2, 1);
}

#[test]
fn seeding_before_first_draw_marks_seeded() {
    let mut rngs = ThreadRngs::new();
    mwc256xxa64_seed(&mut rngs).unwrap();
    assert!(rngs.mwc256xxa64.seeded);
    let mut copy = rngs.mwc256xxa64.rng;
    assert_eq!(mwc256xxa64_u64(&mut rngs).unwrap(), copy.u64());
}

#[test]
fn per_thread_reseed_makes_seeded_words_odd() {
    let mut rngs = ThreadRngs::new();
    assert_eq!(rngs.romu_trio.rng, prng_benchmark::RomuTrio { x: 3, y: 3, z: 3 });
    romu_trio_seed(&mut rngs).unwrap();
    let t = rngs.romu_trio.rng;
    assert_eq!([t.x % 2, t.y % 2, t.z % 2], [1, 1, 1]);
    pcg64_seed(&mut rngs).unwrap();
    assert_eq!((rngs.pcg64.rng.state % 2, rngs.pcg64.rng.inc % 2), (1, 1));
    wyrand_seed(&mut rngs).unwrap();
    assert_eq!(rngs.wyrand.rng.state % 2, 1);
}
