use private_dao::math::isqrt;

#[test]
fn isqrt_zero() {
    assert_eq!(isqrt(0), 0);
}

#[test]
fn isqrt_small_values() {
    assert_eq!(isqrt(1), 1);
    assert_eq!(isqrt(2), 1);
    assert_eq!(isqrt(3), 1);
    assert_eq!(isqrt(4), 2);
    assert_eq!(isqrt(8), 2);
    assert_eq!(isqrt(9), 3);
    assert_eq!(isqrt(10), 3);
    assert_eq!(isqrt(15), 3);
    assert_eq!(isqrt(16), 4);
    assert_eq!(isqrt(99), 9);
    assert_eq!(isqrt(100), 10);
}

#[test]
fn isqrt_large_values() {
    assert_eq!(isqrt(1_000_000_000_000_000_000), 1_000_000_000);
    assert_eq!(isqrt(u64::MAX), 4_294_967_295);
    assert_eq!(isqrt((1u64 << 32) - 1), 65_535);
    assert_eq!(isqrt(1u64 << 32), 65_536);
}

#[test]
fn isqrt_brackets_every_input() {
    for n in (0u64..10_000).chain([u64::MAX - 1, u64::MAX, 1 << 40, (1 << 40) + 1]) {
        let r = isqrt(n);
        assert!(r as u128 * r as u128 <= n as u128);
        assert!((r as u128 + 1) * (r as u128 + 1) > n as u128);
    }
}
