use depot_downloader_gpui::app::qr_code::{art_columns, qr_art_rows};
use depot_downloader_gpui::depot_downloader::child::output_line;
use depot_downloader_gpui::depot_downloader::parser::{
    is_qr_art_line, parse_plain_line, DownloadEvent, OutputParser,
};
use depot_downloader_gpui::depot_downloader::percent::Percent;

#[test]
fn parses_overall_progress_escape_sequence() {
    let mut parser = OutputParser::new();
    let line = "\x1b]9;4;1;42\x07";
    let events = parser.feed(line);
    assert_eq!(events, vec![DownloadEvent::OverallProgress { percent: 42 }]);
}

#[test]
fn parses_per_file_progress_line() {
    let mut parser = OutputParser::new();
    let events = parser.feed(" 12.34% shared/pak01.vpk");
    assert_eq!(
        events,
        vec![DownloadEvent::FileProgress {
            percent: Percent::Hundredths(1234),
            path: "shared/pak01.vpk".into()
        }]
    );
}

#[test]
fn parses_depot_and_total_summaries() {
    let mut parser = OutputParser::new();
    assert_eq!(
        parser.feed("Depot 228990 - Downloaded 104857600 bytes (209715200 bytes uncompressed)"),
        vec![DownloadEvent::DepotFinished {
            depot_id: 228990,
            compressed_bytes: 104857600,
            uncompressed_bytes: 209715200,
        }]
    );
    assert_eq!(
        parser.feed(
            "Total downloaded: 104857600 bytes (209715200 bytes uncompressed) from 1 depots"
        ),
        vec![DownloadEvent::TotalDownloaded {
            compressed_bytes: 104857600,
            uncompressed_bytes: 209715200,
            depot_count: 1,
        }]
    );
}

#[test]
fn collects_multi_line_qr_code_block_despite_blank_quiet_zone_rows() {
    let mut parser = OutputParser::new();
    assert!(parser.feed("Use the Steam Mobile App to sign in with this QR code:").is_empty());
    // The QR's top quiet zone is a row made entirely of the whitespace
    // module string - this must not be mistaken for the end of the block.
    assert!(parser.feed("            ").is_empty());
    assert!(parser.feed("█████████").is_empty());
    assert!(parser.feed("██   █   ██").is_empty());
    // The first line with real text ends the block and is itself parsed.
    let events = parser.feed("Processing depot 123");
    assert_eq!(
        events,
        vec![
            DownloadEvent::QrCodeReady {
                ascii_art: "            \n█████████\n██   █   ██".into()
            },
            DownloadEvent::ProcessingDepot { depot_id: 123 },
        ]
    );
}

#[test]
fn collects_qr_code_block_whose_dark_module_is_not_the_expected_glyph() {
    // The dark-module character can decode to the replacement character
    // instead of '█': the block must still be recognized as QR art.
    let mut parser = OutputParser::new();
    assert!(parser.feed("Use the Steam Mobile App to sign in with this QR code:").is_empty());
    assert!(parser.feed("\u{FFFD}\u{FFFD}   \u{FFFD}\u{FFFD}").is_empty());
    let events = parser.feed("Processing depot 123");
    assert_eq!(
        events,
        vec![
            DownloadEvent::QrCodeReady {
                ascii_art: "\u{FFFD}\u{FFFD}   \u{FFFD}\u{FFFD}".into()
            },
            DownloadEvent::ProcessingDepot { depot_id: 123 },
        ]
    );
}

#[test]
fn flushes_qr_block_when_depot_downloader_goes_silent() {
    // DepotDownloader prints the QR then blocks waiting for the phone scan, so
    // no line ever marks the block's end - only an explicit flush does.
    let mut parser = OutputParser::new();
    assert!(parser.feed("Use the Steam Mobile App to sign in with this QR code:").is_empty());
    assert!(parser.feed("            ").is_empty());
    assert!(parser.feed("█████████").is_empty());

    assert_eq!(
        parser.flush_pending_qr_block(),
        Some(DownloadEvent::QrCodeReady { ascii_art: "            \n█████████".into() })
    );
    // Flushing is one-shot; nothing left to flush a second time.
    assert_eq!(parser.flush_pending_qr_block(), None);
}

#[test]
fn does_not_flush_before_the_heading_or_before_any_line_arrives() {
    let mut parser = OutputParser::new();
    assert_eq!(parser.flush_pending_qr_block(), None);

    assert!(parser.feed("Use the Steam Mobile App to sign in with this QR code:").is_empty());
    assert_eq!(parser.flush_pending_qr_block(), None);
}

#[test]
fn recognizes_steam_guard_prompts() {
    let mut parser = OutputParser::new();
    assert_eq!(
        parser.feed(
            "STEAM GUARD! Please enter your 2-factor auth code from your authenticator app: "
        ),
        vec![DownloadEvent::SteamGuardCodeRequested]
    );
    assert_eq!(
        parser.feed(
            "STEAM GUARD! Please enter the auth code sent to the email at ab***@example.com:"
        ),
        vec![DownloadEvent::SteamGuardEmailCodeRequested { email: "ab***@example.com".into() }]
    );
}

#[test]
fn parses_depot_lines() {
    let mut parser = OutputParser::new();
    assert_eq!(
        parser.feed("Processing depot 731"),
        vec![DownloadEvent::ProcessingDepot { depot_id: 731 }]
    );
    assert_eq!(
        parser.feed("Downloading depot 731 manifest"),
        vec![DownloadEvent::DownloadingDepotManifest { depot_id: 731 }]
    );
    assert_eq!(
        parser.feed("  Downloading depot 731 "),
        vec![DownloadEvent::DownloadingDepot { depot_id: 731 }]
    );
    assert_eq!(
        parser.feed("Using app branch: 'be'ta'."),
        vec![DownloadEvent::UsingBranch { branch: "be'ta".into() }]
    );
    assert_eq!(
        parser.feed("STEAM GUARD! Use the app to confirm your sign in..."),
        vec![DownloadEvent::SteamGuardConfirmationRequested]
    );
    assert_eq!(
        parser.feed("Error: no"),
        vec![DownloadEvent::ErrorLine { message: "Error: no".into() }]
    );
    assert_eq!(parser.feed("Got AppInfo for 440"), vec![DownloadEvent::OtherOutput]);
    assert_eq!(parser.feed("Got 12 licenses for account!"), vec![DownloadEvent::OtherOutput]);
    assert!(parser.feed("").is_empty());
    assert!(parser.feed("   ").is_empty());
}

#[test]
fn escape_sequences_may_stand_anywhere() {
    let mut parser = OutputParser::new();
    assert_eq!(
        parser.feed("\x1b]9;4;1;7\x07Processing \x1b]9;4;1;250\x07depot 1\x1b]9;4;0;999\x07"),
        vec![
            DownloadEvent::OverallProgress { percent: 7 },
            DownloadEvent::OverallProgress { percent: 100 },
            DownloadEvent::ProcessingDepot { depot_id: 1 },
        ]
    );
}

#[test]
fn depot_ids_that_do_not_fit_are_no_depot_lines() {
    let mut parser = OutputParser::new();
    assert_eq!(
        parser.feed("Processing depot 18446744073709551616"),
        vec![DownloadEvent::OtherOutput]
    );
    assert_eq!(
        parser.feed("Processing depot 18446744073709551615"),
        vec![DownloadEvent::ProcessingDepot { depot_id: u64::MAX }]
    );
}

#[test]
fn other_digits_match_but_are_no_number() {
    // An Arabic-Indic digit is a decimal digit to the pattern, but no part of a
    // number that can be read.
    let with_digits = parse_plain_line("Processing depot \u{661}\u{662}");
    let without = parse_plain_line("Processing depot x");
    assert_eq!(with_digits, None);
    assert_eq!(without, None);
}

#[test]
fn qr_art_lines_have_one_dark_character_at_most() {
    assert!(is_qr_art_line("            "));
    assert!(is_qr_art_line("██  ██"));
    assert!(!is_qr_art_line("Processing depot 1"));
}

#[test]
fn collected_rows_come_apart_again() {
    let mut parser = OutputParser::new();
    parser.feed("Use the Steam Mobile App to sign in with this QR code:");
    parser.feed("██  ██");
    parser.feed("  ██  ");
    let art = match parser.flush_pending_qr_block() {
        Some(DownloadEvent::QrCodeReady { ascii_art }) => ascii_art,
        other => panic!("{other:?}"),
    };
    let rows = qr_art_rows(&art);
    assert_eq!(rows, vec![vec![true, false, true], vec![false, true, false]]);
    assert_eq!(art_columns(&rows), 3);
}

#[test]
fn qr_art_is_sampled_by_every_second_character() {
    assert_eq!(qr_art_rows("\u{FFFD}\u{FFFD}   "), vec![vec![true, false, false]]);
    assert_eq!(qr_art_rows("██\r\n██\n"), vec![vec![true], vec![true]]);
    assert_eq!(qr_art_rows("").len(), 0);
    assert_eq!(art_columns(&qr_art_rows("")), 0);
}

#[test]
fn output_lines_survive_malformed_bytes() {
    assert_eq!(output_line(&b"Processing depot 1\r\n".to_vec()), "Processing depot 1");
    assert_eq!(output_line(&b"\r\n\r\n".to_vec()), "");
    assert_eq!(output_line(&b" x \n".to_vec()), " x ");
    assert_eq!(output_line(&vec![0x61, 0xFF, 0x62, 0x0A]), "a\u{FFFD}b");
    assert_eq!(output_line(&"█".as_bytes().to_vec()), "█");
}
