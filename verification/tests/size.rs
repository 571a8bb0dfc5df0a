use fileslink::size::{human_size, GB, KB, MB};

fn with_floats(bytes: u64) -> String {
    if bytes >= GB {
        format!("{:.2} GB", bytes as f64 / GB as f64)
    } else if bytes >= MB {
        format!("{:.2} MB", bytes as f64 / MB as f64)
    } else if bytes >= KB {
        format!("{:.2} KB", bytes as f64 / KB as f64)
    } else {
        format!("{} bytes", bytes)
    }
}

#[test]
fn sizes_for_people() {
    assert_eq!(human_size(0), "0 bytes");
    assert_eq!(human_size(1023), "1023 bytes");
    assert_eq!(human_size(1024), "1.00 KB");
    assert_eq!(human_size(1536), "1.50 KB");
    assert_eq!(human_size(1_048_575), "1024.00 KB");
    assert_eq!(human_size(1_048_576), "1.00 MB");
    assert_eq!(human_size(52_428_800), "50.00 MB");
    assert_eq!(human_size(1_073_741_823), "1024.00 MB");
    assert_eq!(human_size(1_073_741_824), "1.00 GB");
    assert_eq!(human_size(4_294_967_295), "4.00 GB");
}

#[test]
fn size_ties_go_to_the_even_digit() {
    // 1024 * 1.125 and 1024 * 1.375 lie half way between two hundredths.
    assert_eq!(human_size(1152), "1.12 KB");
    assert_eq!(human_size(1408), "1.38 KB");
    assert_eq!(human_size(MB + MB / 8), "1.12 MB");
    assert_eq!(human_size(GB + 3 * (GB / 8)), "1.38 GB");
}

#[test]
fn small_sizes_agree_with_floats() {
    for bytes in 0..200_000u64 {
        assert_eq!(human_size(bytes), with_floats(bytes));
    }
}

#[test]
fn all_magnitudes_agree_with_floats() {
    let mut x: u64 = 88_172_645_463_325_252;
    for _ in 0..100_000 {
        x ^= x << 13;
        x ^= x >> 7;
        x ^= x << 17;
        for shift in [0u32, 1, 3, 8, 10, 11, 12, 20, 31, 40] {
            let bytes = x >> shift;
            assert_eq!(human_size(bytes), with_floats(bytes), "{}", bytes);
        }
    }
    for k in 0..64u32 {
        for d in 0..5u64 {
            let low = (1u64 << k).wrapping_sub(d);
            let high = (1u64 << k).wrapping_add(d);
            assert_eq!(human_size(low), with_floats(low));
            assert_eq!(human_size(high), with_floats(high));
        }
    }
    assert_eq!(human_size(u64::MAX), with_floats(u64::MAX));
}
