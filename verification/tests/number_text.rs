use status_bar::float_bits::F32Bits;
use status_bar::system_metrics::format_bytes;

fn reference_bytes(bytes: u64) -> String {
    let gib = bytes as f64 / 1024.0 / 1024.0 / 1024.0;
    if gib >= 1.0 {
        format!("{gib:.1} GB")
    } else {
        let mib = bytes as f64 / 1024.0 / 1024.0;
        format!("{mib:.0} MB")
    }
}

fn whole(v: f32) -> String {
    let mut s = String::new();
    F32Bits(v.to_bits()).push_whole(&mut s);
    s
}

#[test]
fn format_bytes_matches_float_formatting() {
    let mut values: Vec<u64> = vec![
        0,
        1,
        512 * 1024,
        1024 * 1024,
        3 * 512 * 1024,
        5 * 512 * 1024,
        (1 << 30) - 1,
        1 << 30,
        (1 << 30) + (1 << 20) * 51,
        (1 << 30) + 107_374_182,
        (1 << 30) * 3 / 2,
        8 * 1024 * 1024 * 1024,
        16 * 1024 * 1024 * 1024,
        (1u64 << 53) + 1,
        (1u64 << 53) + 3,
        u64::MAX,
        u64::MAX - 1024,
        u64::MAX - 4096,
    ];
    let mut x: u64 = 0x9e37_79b9_7f4a_7c15;
    for _ in 0..20_000 {
        x ^= x << 13;
        x ^= x >> 7;
        x ^= x << 17;
        values.push(x >> (x % 64));
        values.push((x % 64) * (1 << 29) / 3);
    }
    for tenth in 0..200u64 {
        // exact ties of the tenth digit
        values.push((1 << 30) + tenth * (1 << 30) / 20);
        values.push(tenth * (1 << 19));
    }
    for v in values {
        assert_eq!(format_bytes(v), reference_bytes(v), "bytes = {v}");
    }
}

#[test]
fn whole_number_text_matches_float_formatting() {
    let mut values: Vec<f32> = vec![
        0.0, -0.0, 0.5, 1.5, 2.5, -0.5, -0.3, 12.0, 12.4, 12.5, 13.5, 99.5, 100.0,
        f32::MAX, f32::MIN, f32::MIN_POSITIVE, f32::EPSILON, f32::INFINITY,
        f32::NEG_INFINITY, f32::NAN, -f32::NAN, 1.0e-45, 16_777_217.0, 3.4e38,
    ];
    let mut x: u32 = 0x1234_5678;
    for _ in 0..50_000 {
        x ^= x << 13;
        x ^= x >> 17;
        x ^= x << 5;
        values.push(f32::from_bits(x));
        values.push((x % 20_000) as f32 / 100.0);
    }
    for v in values {
        assert_eq!(whole(v), format!("{v:.0}"), "bits = {:#x}", v.to_bits());
    }
}
