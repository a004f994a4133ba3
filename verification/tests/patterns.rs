use depot_downloader_gpui::depot_downloader::parser::{parse_plain_line, DownloadEvent, OutputParser};
use depot_downloader_gpui::depot_downloader::percent::Percent;
use regex::Regex;

/// What the lines mean, told by regular expressions.
fn expected(line: &str) -> Option<DownloadEvent> {
    let captured = |pattern: &str| {
        Regex::new(pattern).unwrap().captures(line).map(|captures| {
            (1..captures.len()).map(|i| captures[i].to_string()).collect::<Vec<String>>()
        })
    };
    if let Some(fields) = captured(r"^Using app branch: '(.+)'\.$") {
        return Some(DownloadEvent::UsingBranch { branch: fields[0].clone() });
    }
    if let Some(fields) = captured(r"^Downloading depot (\d+) manifest$") {
        return Some(DownloadEvent::DownloadingDepotManifest { depot_id: fields[0].parse().ok()? });
    }
    if let Some(fields) = captured(r"^Processing depot (\d+)$") {
        return Some(DownloadEvent::ProcessingDepot { depot_id: fields[0].parse().ok()? });
    }
    if let Some(fields) = captured(r"^Downloading depot (\d+)$") {
        return Some(DownloadEvent::DownloadingDepot { depot_id: fields[0].parse().ok()? });
    }
    if let Some(fields) =
        captured(r"^Depot (\d+) - Downloaded (\d+) bytes \((\d+) bytes uncompressed\)$")
    {
        return Some(DownloadEvent::DepotFinished {
            depot_id: fields[0].parse().ok()?,
            compressed_bytes: fields[1].parse().ok()?,
            uncompressed_bytes: fields[2].parse().ok()?,
        });
    }
    if let Some(fields) = captured(
        r"^Total downloaded: (\d+) bytes \((\d+) bytes uncompressed\) from (\d+) depots$",
    ) {
        return Some(DownloadEvent::TotalDownloaded {
            compressed_bytes: fields[0].parse().ok()?,
            uncompressed_bytes: fields[1].parse().ok()?,
            depot_count: fields[2].parse().ok()?,
        });
    }
    if let Some(fields) =
        captured(r"^STEAM GUARD! Please enter the auth code sent to the email at (.+):$")
    {
        return Some(DownloadEvent::SteamGuardEmailCodeRequested { email: fields[0].clone() });
    }
    if line.starts_with("STEAM GUARD!") && line.contains("2-factor auth code") {
        return Some(DownloadEvent::SteamGuardCodeRequested);
    }
    if line.starts_with("STEAM GUARD!") && line.contains("confirm your sign in") {
        return Some(DownloadEvent::SteamGuardConfirmationRequested);
    }
    if line.starts_with("Error") || line.contains("Encountered") && line.contains("Aborting") {
        return Some(DownloadEvent::ErrorLine { message: line.to_string() });
    }
    if let Some(fields) = captured(r"^\s*(\d+\.\d{2})%\s+(.+)$") {
        let number: f32 = fields[0].parse().ok()?;
        let hundredths = (f64::from(number) * 100.0).round() as u64;
        return Some(DownloadEvent::FileProgress {
            percent: Percent::Hundredths(hundredths),
            path: fields[1].clone(),
        });
    }
    None
}

const DIGITS: [&str; 7] =
    ["", "7", "007", "18446744073709551615", "18446744073709551616", "\u{663}", "1\u{966}2"];

#[test]
fn depot_lines_agree_with_their_patterns() {
    for digits in DIGITS {
        for line in [
            format!("Processing depot {digits}"),
            format!("Processing depot {digits} "),
            format!(" Processing depot {digits}"),
            format!("Downloading depot {digits}"),
            format!("Downloading depot {digits} manifest"),
            format!("Downloading depot {digits} manifest\n"),
            format!("Downloading depot {digits}\n"),
        ] {
            assert_eq!(parse_plain_line(&line), expected(&line), "{line:?}");
        }
    }
}

#[test]
fn summary_lines_agree_with_their_patterns() {
    for a in DIGITS {
        for b in DIGITS {
            for c in DIGITS {
                for line in [
                    format!("Depot {a} - Downloaded {b} bytes ({c} bytes uncompressed)"),
                    format!("Total downloaded: {a} bytes ({b} bytes uncompressed) from {c} depots"),
                ] {
                    assert_eq!(parse_plain_line(&line), expected(&line), "{line:?}");
                }
            }
        }
    }
}

#[test]
fn worded_lines_agree_with_their_patterns() {
    for word in ["", "public", "a'.b", "'", "'.", "x\ny", "ä", ":", "a:b", "."] {
        for line in [
            format!("Using app branch: '{word}'."),
            format!("Using app branch: '{word}'"),
            format!("STEAM GUARD! Please enter the auth code sent to the email at {word}:"),
            format!("STEAM GUARD! {word} 2-factor auth code"),
            format!("STEAM GUARD! {word} confirm your sign in"),
            format!("{word} Encountered {word} Aborting"),
            format!("Encountered {word}"),
            format!("Error{word}"),
            word.to_string(),
        ] {
            assert_eq!(parse_plain_line(&line), expected(&line), "{line:?}");
        }
    }
}

#[test]
fn file_lines_agree_with_their_patterns() {
    for number in ["12.34", "0.00", "100.00", "1.2", "1.234", ".50", "\u{661}.11", "5.1\u{662}", "x"] {
        for space in ["", " ", "\t ", "\u{a0}", "\n"] {
            for path in ["", "a/b", "a b ", " a", "%", "x\ny", "\u{2003}z"] {
                for front in ["", "  ", "\u{3000}", "."] {
                    let line = format!("{front}{number}%{space}{path}");
                    assert_eq!(parse_plain_line(&line), expected(&line), "{line:?}");
                }
            }
        }
    }
}

#[test]
fn escape_sequences_agree_with_their_pattern() {
    let pattern = Regex::new(r"\x1b\]9;4;\d+;(\d{1,3})\x07").unwrap();
    let pieces = [
        "\x1b]9;4;1;42\x07",
        "\x1b]9;4;12;300\x07",
        "\x1b]9;4;1;1234\x07",
        "\x1b]9;4;;5\x07",
        "\x1b]9;4;1;\x07",
        "\x1b]9;4;\u{661};9\x07",
        "\x1b]9;4;1;\u{661}\x07",
        "\x1b",
        "]9;4;1;42\x07",
        "Processing depot 1",
        " ",
    ];
    for a in pieces {
        for b in pieces {
            for c in pieces {
                let line = format!("{a}{b}{c}");
                let mut events: Vec<DownloadEvent> = pattern
                    .captures_iter(&line)
                    .filter_map(|captures| captures[1].parse::<u8>().ok())
                    .map(|percent| DownloadEvent::OverallProgress { percent: percent.min(100) })
                    .collect();
                let text = pattern.replace_all(&line, "");
                let text = text.trim();
                if !text.is_empty() {
                    events.push(expected(text).unwrap_or(DownloadEvent::OtherOutput));
                }
                assert_eq!(OutputParser::new().feed(&line), events, "{line:?}");
            }
        }
    }
}
