use depot_downloader_gpui::depot_downloader::parser::{DownloadEvent, OutputParser};
use depot_downloader_gpui::depot_downloader::percent::Percent;
use depot_downloader_gpui::depot_downloader::progress::{
    AuthPrompt, Eta, ProgressTracker, ScaledSpeed, Speed,
};

const SECOND: u64 = 1_000_000_000;

fn whole(percent: u8) -> Percent {
    Percent::whole(percent)
}

fn bytes_per_sec(speed: Speed) -> f64 {
    speed.bytes as f64 / (speed.nanos as f64 / 1e9)
}

fn scaled(speed: ScaledSpeed) -> f64 {
    let ratio = if speed.uncompressed == 0 {
        1.0
    } else {
        speed.compressed as f64 / speed.uncompressed as f64
    };
    bytes_per_sec(speed.speed) * ratio
}

fn file(percent: Percent, path: &str) -> DownloadEvent {
    DownloadEvent::FileProgress { percent, path: path.into() }
}

#[test]
fn tracks_current_depot_percent_from_file_progress() {
    let mut tracker = ProgressTracker::new();
    tracker.apply_event(DownloadEvent::ProcessingDepot { depot_id: 1 }, 0);
    tracker.apply_event(file(whole(50), "a"), 0);
    assert_eq!(tracker.stats().current_depot_percent, whole(50));
    assert_eq!(tracker.stats().current_depot_id, Some(1));
}

#[test]
fn disk_sample_is_scaled_by_depot_percent_not_used_raw() {
    let mut tracker = ProgressTracker::new();
    let start = 7 * SECOND;
    tracker.apply_disk_sample(10_000_000, start);
    assert_eq!(tracker.stats().total_size_estimate_bytes, 0);
    assert_eq!(tracker.stats().downloaded_bytes, 0);

    tracker.apply_event(file(whole(50), "a"), start);
    tracker.apply_disk_sample(10_000_000, start + SECOND);
    assert_eq!(tracker.stats().total_size_estimate_bytes, 0);
    assert_eq!(tracker.stats().downloaded_bytes, 0);
}

#[test]
fn disk_sample_baseline_excludes_pre_existing_directory_content() {
    let mut tracker = ProgressTracker::new();
    let start = 7 * SECOND;
    tracker.apply_disk_sample(19_000_000_000, start);
    tracker.apply_event(file(whole(100), "a"), start);
    tracker.apply_disk_sample(19_010_000_000, start + SECOND);
    assert_eq!(tracker.stats().total_size_estimate_bytes, 10_000_000);
    assert_eq!(tracker.stats().downloaded_bytes, 10_000_000);
    assert!(bytes_per_sec(tracker.stats().disk_speed) > 0.0);
}

#[test]
fn download_speed_uses_compression_ratio_once_known() {
    let mut tracker = ProgressTracker::new();
    let start = 7 * SECOND;
    tracker.apply_disk_sample(0, start);
    tracker.apply_event(
        DownloadEvent::DepotFinished { depot_id: 1, compressed_bytes: 50, uncompressed_bytes: 100 },
        start,
    );
    tracker.apply_event(file(whole(100), "a"), start);
    tracker.apply_disk_sample(10_000_000, start + SECOND);
    let stats = tracker.stats();
    assert!((scaled(stats.download_speed) - bytes_per_sec(stats.disk_speed) * 0.5).abs() < 1.0);
    assert_eq!(stats.disk_speed, Speed { bytes: 10_000_000, nanos: SECOND });
}

#[test]
fn login_prompts_clear_once_real_depot_activity_resumes() {
    let mut tracker = ProgressTracker::new();
    tracker.apply_event(DownloadEvent::QrCodeReady { ascii_art: "██".into() }, 0);
    assert!(tracker.stats().qr_code_ascii_art.is_some());

    tracker.apply_event(DownloadEvent::ProcessingDepot { depot_id: 1 }, 0);
    assert!(tracker.stats().qr_code_ascii_art.is_none());
}

#[test]
fn login_prompts_clear_on_any_output_not_just_recognized_events() {
    let mut tracker = ProgressTracker::new();
    tracker.apply_event(DownloadEvent::QrCodeReady { ascii_art: "██".into() }, 0);
    assert!(tracker.stats().qr_code_ascii_art.is_some());

    tracker.apply_event(DownloadEvent::OtherOutput, 0);
    assert!(tracker.stats().qr_code_ascii_art.is_none());
}

#[test]
fn disk_speed_never_resets_to_zero_during_a_long_gap_between_progress_updates() {
    let mut tracker = ProgressTracker::new();
    let start = 7 * SECOND;
    tracker.apply_disk_sample(0, start);
    tracker.apply_event(file(whole(10), "big.bin"), start);
    tracker.apply_disk_sample(10_000_000, start + SECOND);
    assert!(bytes_per_sec(tracker.stats().disk_speed) > 0.0);

    for seconds in [3, 5, 7, 9, 11] {
        tracker.apply_disk_sample(10_000_000, start + seconds * SECOND);
    }
    assert!(bytes_per_sec(tracker.stats().disk_speed) > 0.0);
}

#[test]
fn total_downloaded_marks_run_finished() {
    let mut tracker = ProgressTracker::new();
    tracker.apply_event(
        DownloadEvent::TotalDownloaded {
            compressed_bytes: 100,
            uncompressed_bytes: 200,
            depot_count: 1,
        },
        0,
    );
    assert!(tracker.stats().is_finished);
    assert_eq!(tracker.stats().final_uncompressed_bytes, Some(200));
    assert_eq!(tracker.stats().eta, Some(Eta::Zero));
    assert_eq!(tracker.stats().status_message, "Done - 1 depot(s) downloaded");
}

#[test]
fn status_messages_tell_the_event() {
    let mut tracker = ProgressTracker::new();
    tracker.apply_event(DownloadEvent::UsingBranch { branch: "public".into() }, 0);
    assert_eq!(tracker.stats().status_message, "Using branch 'public'");
    tracker.apply_event(DownloadEvent::DownloadingDepotManifest { depot_id: 5 }, 0);
    assert_eq!(tracker.stats().status_message, "Downloading manifest for depot 5");
    tracker.apply_event(DownloadEvent::DownloadingDepot { depot_id: 6 }, 0);
    assert_eq!(tracker.stats().status_message, "Downloading depot 6");
    assert_eq!(tracker.stats().current_depot_id, Some(6));
    tracker.apply_event(file(Percent::Hundredths(1234), "a/b.c"), 0);
    assert_eq!(tracker.stats().status_message, "12.34% - a/b.c");
    tracker.apply_event(DownloadEvent::ErrorLine { message: "no".into() }, 0);
    assert_eq!(tracker.stats().error_message.as_deref(), Some("no"));
    assert_eq!(tracker.stats().depots_seen, 0);
}

#[test]
fn prompts_are_gone_with_any_further_output() {
    let mut tracker = ProgressTracker::new();
    tracker.apply_event(DownloadEvent::SteamGuardEmailCodeRequested { email: "a@b".into() }, 0);
    assert_eq!(
        tracker.stats().auth_prompt,
        Some(AuthPrompt::EmailCode { email: "a@b".into() })
    );
    tracker.apply_event(DownloadEvent::SteamGuardConfirmationRequested, 0);
    assert_eq!(tracker.stats().auth_prompt, Some(AuthPrompt::Confirmation));
    let outputs = vec![
        DownloadEvent::UsingBranch { branch: "public".into() },
        DownloadEvent::DownloadingDepotManifest { depot_id: 1 },
        DownloadEvent::DownloadingDepot { depot_id: 1 },
        file(whole(1), "a"),
        DownloadEvent::OverallProgress { percent: 1 },
        DownloadEvent::DepotFinished {
            depot_id: 1,
            compressed_bytes: 1,
            uncompressed_bytes: 2,
        },
        DownloadEvent::TotalDownloaded {
            compressed_bytes: 1,
            uncompressed_bytes: 2,
            depot_count: 1,
        },
        DownloadEvent::ErrorLine { message: "Error".into() },
        DownloadEvent::OtherOutput,
    ];
    for output in outputs {
        tracker.apply_event(DownloadEvent::SteamGuardCodeRequested, 0);
        tracker.apply_event(DownloadEvent::QrCodeReady { ascii_art: "██".into() }, 0);
        assert_eq!(tracker.stats().auth_prompt, Some(AuthPrompt::Code));
        assert_eq!(tracker.stats().qr_code_ascii_art.as_deref(), Some("██"));
        tracker.apply_event(output, 0);
        assert_eq!(tracker.stats().auth_prompt, None);
        assert_eq!(tracker.stats().qr_code_ascii_art, None);
    }
}

#[test]
fn a_branch_line_ends_the_qr_code_and_is_told() {
    let mut tracker = ProgressTracker::new();
    tracker.apply_event(DownloadEvent::QrCodeReady { ascii_art: "██".into() }, 0);
    tracker.apply_event(DownloadEvent::UsingBranch { branch: "public".into() }, 0);
    assert_eq!(tracker.stats().qr_code_ascii_art, None);
    assert_eq!(tracker.stats().auth_prompt, None);
    assert_eq!(tracker.stats().status_message, "Using branch 'public'");
}

#[test]
fn a_whole_run_is_summed_up() {
    let mut tracker = ProgressTracker::new();
    tracker.apply_disk_sample(100, 0);
    tracker.apply_event(DownloadEvent::ProcessingDepot { depot_id: 7 }, 0);
    tracker.apply_disk_sample(5000, SECOND);
    tracker.apply_event(DownloadEvent::ErrorLine { message: "Error 1".into() }, SECOND);
    tracker.apply_event(DownloadEvent::ProcessingDepot { depot_id: 8 }, SECOND);
    tracker.apply_event(DownloadEvent::ErrorLine { message: "Error 2".into() }, SECOND);
    tracker.apply_event(file(whole(50), "a"), SECOND);
    tracker.apply_disk_sample(1100, 2 * SECOND);
    assert_eq!(tracker.stats().total_size_estimate_bytes, 1000);
    assert_eq!(tracker.stats().downloaded_bytes, 500);
    tracker.apply_event(DownloadEvent::DownloadingDepot { depot_id: 9 }, 3 * SECOND);
    assert_eq!(tracker.stats().depots_seen, 2);
    assert_eq!(tracker.stats().current_depot_id, Some(9));
    assert_eq!(tracker.stats().error_message.as_deref(), Some("Error 2"));
    assert!(!tracker.stats().is_finished);
}

#[test]
fn eta_is_projected_from_growing_percentages_alone() {
    let mut tracker = ProgressTracker::new();
    tracker.apply_event(DownloadEvent::OverallProgress { percent: 10 }, SECOND);
    assert_eq!(tracker.stats().eta, None);
    tracker.apply_event(DownloadEvent::OverallProgress { percent: 10 }, 2 * SECOND);
    assert_eq!(tracker.stats().eta, None);
    tracker.apply_event(DownloadEvent::OverallProgress { percent: 20 }, 3 * SECOND);
    assert_eq!(
        tracker.stats().eta,
        Some(Eta::Projected { elapsed_nanos: 2 * SECOND, first: whole(10), last: whole(20) })
    );
    // Samples older than six seconds are gone.
    tracker.apply_event(DownloadEvent::OverallProgress { percent: 30 }, 8 * SECOND + 1);
    assert_eq!(
        tracker.stats().eta,
        Some(Eta::Projected { elapsed_nanos: 5 * SECOND + 1, first: whole(20), last: whole(30) })
    );
    // A new depot starts over, and keeps the last projection until it has one.
    tracker.apply_event(DownloadEvent::ProcessingDepot { depot_id: 2 }, 9 * SECOND);
    assert_eq!(tracker.stats().current_depot_percent, whole(0));
    assert_eq!(tracker.stats().depots_seen, 1);
}

#[test]
fn counters_that_would_overflow_are_told() {
    let mut tracker = ProgressTracker::new();
    let full = DownloadEvent::DepotFinished {
        depot_id: 1,
        compressed_bytes: u64::MAX,
        uncompressed_bytes: 1,
    };
    assert!(tracker.can_apply(&full));
    tracker.apply_event(full, 0);
    let more = DownloadEvent::DepotFinished {
        depot_id: 1,
        compressed_bytes: 1,
        uncompressed_bytes: 1,
    };
    assert!(!tracker.can_apply(&more));
    assert!(tracker.can_apply(&DownloadEvent::OtherOutput));
    assert!(tracker.can_apply(&DownloadEvent::ProcessingDepot { depot_id: 1 }));
}

#[test]
fn shares_are_those_of_floating_point() {
    let mut hundredths: u64 = 0;
    let mut total: u64 = 1;
    let mut step: u64 = 1;
    for _ in 0..4000 {
        hundredths = (hundredths * 31 + 17) % 10_001;
        total = total.wrapping_mul(6364136223846793005).wrapping_add(1442695040888963407);
        let size = total >> (step % 64);
        step += 1;
        let text = format!("{}.{:02}", hundredths / 100, hundredths % 100);
        let percent: f32 = text.parse().unwrap();
        let expected = (size as f64 * (f64::from(percent) / 100.0)) as u64;
        assert_eq!(Percent::Hundredths(hundredths).share_of(size), expected, "{text} of {size}");
    }
    assert_eq!(whole(100).share_of(10_000_000), 10_000_000);
    assert_eq!(whole(0).share_of(u64::MAX), 0);
}

#[test]
fn percent_texts_are_those_of_floating_point() {
    for hundredths in 0..10_001u64 {
        let text = format!("{}.{:02}", hundredths / 100, hundredths % 100);
        let percent: f32 = text.parse().unwrap();
        let mut tenths = String::new();
        Percent::Hundredths(hundredths).push_tenths(&mut tenths);
        assert_eq!(tenths, format!("{percent:.1}"));
        let mut both = String::new();
        Percent::Hundredths(hundredths).push_hundredths(&mut both);
        assert_eq!(both, format!("{percent:.2}"));
    }
}

#[test]
fn large_percentages_are_those_of_single_precision() {
    let mut texts = vec![
        "184467440737095516.15".to_string(),
        "184467440737095516.16".to_string(),
        "340282346638528859811704183484516925440.00".to_string(),
        "340282356779733661637539395458142568447.99".to_string(),
        "340282356779733661637539395458142568448.00".to_string(),
        "340282366920938463463374607431768211455.00".to_string(),
        "340282366920938463463374607431768211456.00".to_string(),
        "99999999999999999999999999999999999999999999999999.99".to_string(),
        format!("{}1234567890123456789012.34", "0".repeat(60)),
    ];
    // Right between two numbers, and a hundredth beside that.
    for bits in 58..127u32 {
        for odd in [1u128 << 24, (1 << 24) + 2] {
            let middle = (odd * 2 + 1) << (bits - 25);
            for part in ["00", "01", "99"] {
                texts.push(format!("{middle}.{part}"));
                texts.push(format!("{}.{part}", middle - 1));
            }
        }
    }
    for text in texts {
        let expected: f32 = text.parse().unwrap();
        let events = OutputParser::new().feed(&format!("{text}% a"));
        let percent = match &events[..] {
            [DownloadEvent::FileProgress { percent, .. }] => *percent,
            other => panic!("{other:?}"),
        };
        let mut shown = String::new();
        percent.push_hundredths(&mut shown);
        assert_eq!(shown, format!("{expected:.2}"), "{text}");
        let mut tenths = String::new();
        percent.push_tenths(&mut tenths);
        assert_eq!(tenths, format!("{expected:.1}"), "{text}");
        for total in [0u64, 1, 3, 12345, u64::MAX] {
            let share = (total as f64 * (f64::from(expected) / 100.0)) as u64;
            assert_eq!(percent.share_of(total), share, "{text} of {total}");
        }
        for (other, number) in [
            (whole(100), 100.0),
            (Percent::Hundredths(u64::MAX), 184467440737095516.15_f32),
            (Percent::Whole(1 << 90), (1u128 << 90) as f32),
            (Percent::Infinite, f32::INFINITY),
        ] {
            assert_eq!(percent.less_than(other), expected < number, "{text}");
            assert_eq!(other.less_than(percent), number < expected, "{text}");
        }
        assert!(!percent.less_than(percent));
    }
}

