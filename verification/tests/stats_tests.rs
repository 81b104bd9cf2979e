use linuxpet::stats::{format_bytes, sum_pairs, xorshift64, RingBuffer, HISTORY_LEN};

/// Reference: the rate computed with `f64` division and `{:.N}` formatting.
fn reference_rate(bps: u64) -> String {
    if bps >= 1_073_741_824 {
        format!("{:.1} GB/s", bps as f64 / 1_073_741_824.0)
    } else if bps >= 104_858 {
        format!("{:.1} MB/s", bps as f64 / 1_048_576.0)
    } else if bps >= 1_024 {
        format!("{:.0} KB/s", bps as f64 / 1_024.0)
    } else {
        format!("{} B/s", bps)
    }
}

#[test]
fn format_bytes_small_values() {
    assert_eq!(format_bytes(0), "0 B/s");
    assert_eq!(format_bytes(1), "1 B/s");
    assert_eq!(format_bytes(1023), "1023 B/s");
}

#[test]
fn format_bytes_kilobytes() {
    assert_eq!(format_bytes(1024), "1 KB/s");
    assert_eq!(format_bytes(1536), "2 KB/s");
    assert_eq!(format_bytes(2560), "2 KB/s");
    assert_eq!(format_bytes(104_857), "102 KB/s");
}

#[test]
fn format_bytes_megabytes() {
    assert_eq!(format_bytes(1_048_576), "1.0 MB/s");
    assert_eq!(format_bytes(1_258_291), "1.2 MB/s");
    assert_eq!(format_bytes(1_073_741_823), "1024.0 MB/s");
}

#[test]
fn format_bytes_tenths_of_a_megabyte() {
    assert_eq!(format_bytes(104_858), "0.1 MB/s");
    assert_eq!(format_bytes(314_573), "0.3 MB/s");
    assert_eq!(format_bytes(1_048_575), "1.0 MB/s");
}

#[test]
fn format_bytes_gigabytes() {
    assert_eq!(format_bytes(1_073_741_824), "1.0 GB/s");
    assert_eq!(format_bytes(1_342_177_280), "1.2 GB/s");
    assert_eq!(format_bytes(u64::MAX), "17179869184.0 GB/s");
}

#[test]
fn format_bytes_matches_float_formatting() {
    let mut cases: Vec<u64> = vec![
        0, 1, 9, 10, 99, 100, 1023, 1024, 1025, 1535, 1536, 1537, 2560, 3584,
        1_048_063, 1_048_064, 1_048_575, 1_048_576, 1_153_433, 1_205_862, 1_310_720,
        1_073_741_823, 1_073_741_824, 1_181_116_006, 1_342_177_280, 1_610_612_736,
        9_007_199_254_740_991, 9_007_199_254_740_992, 9_007_199_254_740_993,
        18_014_398_509_481_985, 123_456_789_012_345_678, u64::MAX - 1, u64::MAX,
    ];
    let mut x: u64 = 0x9E37_79B9_7F4A_7C15;
    for shift in 0..64u32 {
        for _ in 0..40 {
            x = xorshift64(x);
            cases.push(x >> shift);
        }
    }
    for k in 1..4096u64 {
        cases.push(k * 512);
        cases.push(k * 104_857 + 1_048_576);
        cases.push(k * 25 + 104_000);
        cases.push(k * 107_374_182 + 1_073_741_824);
    }
    for bps in cases {
        assert_eq!(format_bytes(bps), reference_rate(bps), "bps = {}", bps);
    }
}

#[test]
fn ring_buffer_starts_empty() {
    let ring: RingBuffer<f32> = RingBuffer::new(0.0);
    assert!(ring.iter().is_empty());
    assert_eq!(ring.latest(), 0.0);
}

#[test]
fn ring_buffer_keeps_order_before_full() {
    let mut ring = RingBuffer::new(0.0f32);
    ring.push(1.5);
    ring.push(2.5);
    ring.push(3.5);
    assert_eq!(ring.iter(), vec![1.5, 2.5, 3.5]);
    assert_eq!(ring.latest(), 3.5);
}

#[test]
fn ring_buffer_keeps_last_sixty() {
    let mut ring = RingBuffer::new(0u32);
    for v in 1..=75u32 {
        ring.push(v);
    }
    let expected: Vec<u32> = (16..=75).collect();
    assert_eq!(ring.iter(), expected);
    assert_eq!(ring.iter().len(), HISTORY_LEN);
    assert_eq!(ring.latest(), 75);
}

#[test]
fn ring_buffer_exactly_full() {
    let mut ring = RingBuffer::new(-1i32);
    for v in 0..60i32 {
        ring.push(v);
    }
    let expected: Vec<i32> = (0..60).collect();
    assert_eq!(ring.iter(), expected);
    assert_eq!(ring.latest(), 59);
    ring.push(60);
    let expected: Vec<i32> = (1..61).collect();
    assert_eq!(ring.iter(), expected);
}

#[test]
fn ring_buffer_blank_is_reported_when_empty() {
    let ring = RingBuffer::new(7u8);
    assert_eq!(ring.latest(), 7);
}

#[test]
fn sum_pairs_adds_components() {
    assert_eq!(sum_pairs(&[]), Some((0, 0)));
    assert_eq!(sum_pairs(&[(1, 2), (10, 20), (100, 200)]), Some((111, 222)));
}

#[test]
fn sum_pairs_reports_overflow() {
    assert_eq!(sum_pairs(&[(u64::MAX, 0), (1, 0)]), None);
    assert_eq!(sum_pairs(&[(0, u64::MAX), (0, 1)]), None);
    assert_eq!(sum_pairs(&[(u64::MAX, 1), (0, 1)]), Some((u64::MAX, 2)));
}

#[test]
fn xorshift_step_values() {
    let mut v: u64 = 12345;
    v ^= v << 13;
    v ^= v >> 7;
    v ^= v << 17;
    assert_eq!(xorshift64(12345), v);
    assert_eq!(xorshift64(0), 0);
    assert_ne!(xorshift64(1), 1);
}
