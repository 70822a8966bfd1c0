use prng_benchmark::{host_is_little_endian, FillBytes, Random, Splitmix64, Wyrand, Xoshiro256plusplus};

#[test]
fn fill_eleven_bytes_little_endian() {
    let mut g = Splitmix64 { state: 1 };
    let mut buf = [0u8; 11];
    g.fill_bytes_ordered(&mut buf, true);
    assert_eq!(buf, [0xE5, 0x05, 0x0B, 0x10, 0x1D, 0x16, 0x92, 0x56, 0xC1, 0x67, 0x5E]);
    assert_eq!(g.state, 0x78DDE6E5FD29F055);
}

#[test]
fn fill_eleven_bytes_big_endian() {
    let mut g = Splitmix64 { state: 1 };
    let mut buf = [0u8; 11];
    g.fill_bytes_ordered(&mut buf, false);
    assert_eq!(buf, [0x56, 0x92, 0x16, 0x1D, 0x10, 0x0B, 0x05, 0xE5, 0xC1, 0x67, 0x5E]);
}

#[test]
fn fill_uses_native_byte_order() {
    let start = Xoshiro256plusplus { s0: 5, s1: 6, s2: 7, s3: 8 };
    let mut g = start;
    let mut buf = [0u8; 21];
    g.fill_bytes(&mut buf);
    let mut r = start;
    let mut expected = Vec::new();
    expected.extend_from_slice(&r.u64().to_ne_bytes());
    expected.extend_from_slice(&r.u64().to_ne_bytes());
    for _ in 0..5 {
        expected.push(r.u64() as u8);
    }
    assert_eq!(buf.to_vec(), expected);
    assert_eq!(g, r);
}

#[test]
fn host_order_matches_to_ne_bytes() {
    assert_eq!(host_is_little_endian(), 1u64.to_ne_bytes()[0] == 1);
}

#[test]
fn fill_empty_is_a_no_op() {
    let mut g = Wyrand { state: 9 };
    let mut buf: [u8; 0] = [];
    g.fill_bytes(&mut buf);
    assert_eq!(g.state, 9);
}

#[test]
fn fill_advances_once_per_chunk_and_tail_byte() {
    let mut g = Wyrand { state: 9 };
    let mut buf = [0u8; 8 * 3 + 5];
    g.fill_bytes(&mut buf);
    let mut r = Wyrand { state: 9 };
    for _ in 0..8 {
        r.u64();
    }
    assert_eq!(g, r);
}

#[test]
fn fill_one_mebibyte_is_roughly_uniform() {
    let mut g = Xoshiro256plusplus::new().unwrap();
    let mut buf = vec![0u8; 1 << 20];
    g.fill_bytes(&mut buf);
    assert_eq!(buf.len(), 1 << 20);
    let mut counts = [0u64; 256];
    for b in buf.iter() {
        counts[*b as usize] += 1;
    }
    let expected = (1u64 << 20) as f64 / 256.0;
    let chi: f64 = counts.iter().map(|c| {
        let d = *c as f64 - expected;
        d * d / expected
    }).sum();
    assert!(chi < 400.0, "chi-square {}", chi);
}
