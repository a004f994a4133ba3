use std::time::Duration;

use depot_downloader_gpui::decimal::{parse_u32, parse_u64, to_decimal};
use depot_downloader_gpui::ui::format::{format_bytes, format_elapsed, format_eta, format_speed};

#[test]
fn formats_bytes_at_the_right_scale() {
    assert_eq!(format_bytes(512), "512 B");
    assert_eq!(format_bytes(2048), "2.0 KB");
    assert_eq!(format_bytes(5 * 1024 * 1024), "5.00 MB");
    assert_eq!(format_bytes(3 * 1024 * 1024 * 1024), "3.00 GB");
}

#[test]
fn eta_falls_back_when_unknown() {
    assert_eq!(format_eta(None), "Calculating…");
    assert_eq!(format_eta(Some(Duration::from_secs(45).as_secs())), "45s");
    assert_eq!(format_eta(Some(Duration::from_secs(125).as_secs())), "2m 5s");
    assert_eq!(format_eta(Some(Duration::from_secs(3700).as_secs())), "1h 1m");
}

#[test]
fn elapsed_always_shows_seconds() {
    assert_eq!(format_elapsed(Duration::from_secs(45).as_secs()), "0:45");
    assert_eq!(format_elapsed(Duration::from_secs(125).as_secs()), "2:05");
    assert_eq!(format_elapsed(Duration::from_secs(3700).as_secs()), "1:01:40");
}

#[test]
fn elapsed_ticks_every_second() {
    for seconds in 0..8000u64 {
        assert_ne!(format_elapsed(seconds), format_elapsed(seconds + 1));
        assert!(format_elapsed(seconds).ends_with(&format!(":{:02}", seconds % 60)));
    }
}

#[test]
fn byte_texts_are_those_of_floating_point() {
    let mut bytes: u64 = 1;
    for step in 0..4000u64 {
        bytes = bytes.wrapping_mul(6364136223846793005).wrapping_add(1442695040888963407);
        let count = bytes >> (step % 64);
        let value = count as f64;
        let expected = if value >= 1073741824.0 {
            format!("{:.2} GB", value / 1073741824.0)
        } else if value >= 1048576.0 {
            format!("{:.2} MB", value / 1048576.0)
        } else if value >= 1024.0 {
            format!("{:.1} KB", value / 1024.0)
        } else {
            format!("{value:.0} B")
        };
        assert_eq!(format_bytes(count), expected);
    }
    assert_eq!(format_bytes(1023), "1023 B");
    assert_eq!(format_bytes(1024), "1.0 KB");
    assert_eq!(format_bytes(1280), "1.2 KB");
    assert_eq!(format_bytes(u64::MAX), "17179869184.00 GB");
}

#[test]
fn speeds_are_bytes_per_second() {
    assert_eq!(format_speed(0), "0 B/s");
    assert_eq!(format_speed(2048), "2.0 KB/s");
}

#[test]
fn numbers_are_read_as_they_are_written() {
    for n in [0, 1, 9, 10, 4294967295, 4294967296, u64::MAX] {
        assert_eq!(to_decimal(n), n.to_string());
        assert_eq!(parse_u64(&n.to_string()), Some(n));
    }
    for text in ["", "+", "-1", " 1", "1 ", "18446744073709551616", "0x1", "+7", "007"] {
        assert_eq!(parse_u64(text), text.parse().ok(), "{text}");
        assert_eq!(parse_u32(text), text.parse().ok(), "{text}");
    }
    assert_eq!(parse_u32("4294967296"), None);
}

#[test]
fn elapsed_times_can_be_read_back() {
    for seconds in [0u64, 59, 60, 3599, 3600, 3661, 86_400, 360_000, u64::MAX] {
        let text = format_elapsed(seconds);
        let parts: Vec<&str> = text.split(':').collect();
        let read = parts.iter().fold(0u128, |sum, part| sum * 60 + part.parse::<u128>().unwrap());
        assert_eq!(read, u128::from(seconds));
        assert_eq!(parts.len(), if seconds >= 3600 { 3 } else { 2 });
        assert!(parts[1..].iter().all(|part| part.len() == 2));
    }
}
