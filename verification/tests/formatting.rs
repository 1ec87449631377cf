use verostat::network::format_speed;
use verostat::numfmt::push_decimal;

fn reference_speed(b: u64) -> String {
    if b >= 1024 * 1024 * 1024 {
        format!("{:.1} GB/s", b as f64 / (1024.0 * 1024.0 * 1024.0))
    } else if b >= 1024 * 1024 {
        format!("{:.1} MB/s", b as f64 / (1024.0 * 1024.0))
    } else if b >= 1024 {
        format!("{:.0} KB/s", b as f64 / 1024.0)
    } else {
        format!("{} B/s", b)
    }
}

#[test]
fn format_speed_exact_values() {
    assert_eq!(format_speed(0), "0 B/s");
    assert_eq!(format_speed(1023), "1023 B/s");
    assert_eq!(format_speed(1024), "1 KB/s");
    assert_eq!(format_speed(1536), "2 KB/s");
    assert_eq!(format_speed(2560), "2 KB/s");
    assert_eq!(format_speed(1024 * 1024), "1.0 MB/s");
    assert_eq!(format_speed(2_516_582), "2.4 MB/s");
    assert_eq!(format_speed(1024 * 1024 * 1024), "1.0 GB/s");
    assert_eq!(format_speed(u64::MAX), "17179869184.0 GB/s");
}

#[test]
fn format_speed_matches_float_formatting() {
    let mut samples: Vec<u64> = Vec::new();
    for b in 0..5000u64 {
        samples.push(b);
    }
    for k in 0..64u32 {
        let base = 1u64 << k;
        for d in 0..40u64 {
            samples.push(base.wrapping_add(d));
            samples.push(base.wrapping_sub(d));
            samples.push(base.wrapping_add(base / 2).wrapping_add(d));
        }
    }
    let mut x: u64 = 0x9E37_79B9_7F4A_7C15;
    for _ in 0..20000 {
        x ^= x << 13;
        x ^= x >> 7;
        x ^= x << 17;
        samples.push(x);
        samples.push(x >> 20);
        samples.push(x >> 35);
        samples.push(x >> 45);
        // halves at whole KiB, and quarters of a GiB
        samples.push(((x >> 50) * 2 + 1) * 512);
        samples.push(((x >> 44) * 2 + 1) * (1u64 << 28));
    }
    for b in samples {
        assert_eq!(format_speed(b), reference_speed(b), "bytes per second {}", b);
    }
}

#[test]
fn decimal_digits() {
    let mut s = String::new();
    push_decimal(&mut s, 0);
    s.push(' ');
    push_decimal(&mut s, 1234567890123456789012345678901234567);
    assert_eq!(s, "0 1234567890123456789012345678901234567");
}

use verostat::dashboard::{memory_line, network_line, process_usage_line, storage_line};

#[test]
fn gib_lines_match_float_formatting() {
    let mut x: u64 = 0x2545_F491_4F6C_DD1D;
    for _ in 0..20000 {
        x ^= x << 13;
        x ^= x >> 7;
        x ^= x << 17;
        for &b in &[x, x >> 10, x >> 24, x >> 33] {
            let gib = b as f64 / 1024.0 / 1024.0 / 1024.0;
            assert_eq!(memory_line(b, x >> 30), format!("{:.1} / {:.0} GB", gib, (x >> 30) as f64 / 1024.0 / 1024.0 / 1024.0));
            assert_eq!(storage_line(b, b), format!("{:.0} / {:.0} GB", gib, gib));
        }
    }
    assert_eq!(memory_line(15_676_630_630, 34_359_738_368), "14.6 / 32 GB");
}

#[test]
fn network_and_process_lines() {
    assert_eq!(network_line(1024, 300), "\u{2193} 1 KB/s     \u{2191} 300 B/s");
    assert_eq!(process_usage_line(12, 200 * 1024 * 1024), "12% \u{2022} 200 MB");
    assert_eq!(process_usage_line(3, 1536 * 1024 * 1024), "3% \u{2022} 1.5 GB");
    for mb in [1024u64, 1075, 1126, 2047, 5000, 123456] {
        assert_eq!(process_usage_line(-1, mb * 1024 * 1024 + 17), format!("-1% \u{2022} {:.1} GB", mb as f64 / 1024.0));
    }
}
