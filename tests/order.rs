use raytracer::order::order_key;

fn key(x: f32) -> u32 {
    order_key(x.to_bits())
}

#[test]
fn order_key_exact_values() {
    assert_eq!(order_key(0x0000_0000), 0x8000_0000);
    assert_eq!(order_key(0x8000_0000), 0x7fff_ffff);
    assert_eq!(order_key(0x3f80_0000), 0xbf80_0000);
    assert_eq!(order_key(0xbf80_0000), 0x407f_ffff);
    assert_eq!(key(f32::INFINITY), 0xff80_0000);
    assert_eq!(key(f32::NEG_INFINITY), 0x007f_ffff);
}

#[test]
fn order_key_sorts_like_values() {
    let values: Vec<f32> = vec![
        f32::NEG_INFINITY,
        -1.0e30,
        -2.5,
        -1.0,
        -1.0e-30,
        -0.0,
        0.0,
        1.0e-30,
        0.001,
        0.5,
        1.0,
        1.5,
        100.0,
        f32::MAX,
        f32::INFINITY,
    ];
    for w in values.windows(2) {
        assert!(key(w[0]) < key(w[1]), "{} before {}", w[0], w[1]);
    }
}

#[test]
fn order_key_negative_zero_sits_below_zero() {
    assert_eq!(key(-0.0) + 1, key(0.0));
}
