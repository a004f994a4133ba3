use std::collections::{HashMap, HashSet};

use depot_downloader_gpui::app::catalog::{
    branch_items, default_branch_index, dlc_items, downloadable_dlc, lowered_matches,
    name_chunk_size, share_of_worker, BranchItem, DlcItem, GameItem, LOGO_WORKERS, NAME_WORKERS,
};
use depot_downloader_gpui::app::qr_code::{module_rows, qr_rows};
use depot_downloader_gpui::app::speed_history::{ShownSample, SpeedHistory};
use depot_downloader_gpui::app::state::DiskPhase;
use depot_downloader_gpui::depot_downloader::event::{BranchInfo, SteamApp};

const SECOND: u64 = 1_000_000_000;

fn branch(name: &str, password_required: bool) -> BranchInfo {
    BranchInfo { name: name.to_string(), build_id: 1, time_updated: 2, password_required }
}

#[test]
fn rows_are_found_by_name_or_id() {
    let item: GameItem<u8> = GameItem {
        app: SteamApp {
            app_id: 393380,
            name: "Squad".to_string(),
            app_type: "Game".to_string(),
        },
        logo: None,
    };
    assert!(item.matches("squ"));
    assert!(item.matches(" SQUAD "));
    assert!(item.matches("9338"));
    assert!(item.matches(""));
    assert!(!item.matches("squads"));
    assert_eq!(item.title(), "Squad");
    assert_eq!(item.value(), 393380);
    let dlc = DlcItem { app_id: 7, name: "ÄRGER".to_string() };
    assert!(dlc.matches("ärger"));
    assert!(dlc.matches("7"));
    assert!(!dlc.matches("8"));
    assert_eq!((dlc.title(), dlc.value()), ("ÄRGER", 7));
    assert!(lowered_matches("abc", 1, "B", "b"));
    assert!(!lowered_matches("abc", 1, "", "x"));
}

#[test]
fn branches_default_to_public() {
    let choice = branch_items(vec![branch("beta", true), branch("Public", false)]);
    assert_eq!(choice.selected, 1);
    assert!(choice.items[0].disabled());
    assert_eq!(choice.items[1].title(), "Public");
    let choice = branch_items(vec![branch("beta", false)]);
    assert_eq!(choice.selected, 0);
    let choice = branch_items(vec![]);
    assert_eq!(choice.items.len(), 1);
    assert_eq!(choice.items[0].name, "public");
    assert!(!choice.items[0].password_required);
    let none: Vec<BranchItem> = vec![];
    assert_eq!(default_branch_index(&none), 0);
}

#[test]
fn only_owned_dlc_are_offered() {
    let owned: HashSet<u64> = [2, 4].into_iter().collect();
    let kept = downloadable_dlc(&vec![1, 2, 3, 4], &owned);
    assert_eq!(kept, vec![2, 4]);
    let names: HashMap<u64, String> = [(4, "Four".to_string())].into_iter().collect();
    let items = dlc_items(&kept, &names);
    assert_eq!(items[0].name, "DLC 2");
    assert_eq!(items[1].name, "Four");
}

#[test]
fn logos_are_dealt_out_in_turn() {
    let ids: Vec<u64> = (0..50).collect();
    let mut seen: Vec<u64> = Vec::new();
    for worker in 0..LOGO_WORKERS {
        let share = share_of_worker(&ids, worker);
        let expected: Vec<u64> = ids.iter().copied().skip(worker).step_by(LOGO_WORKERS).collect();
        assert_eq!(share, expected);
        seen.extend(share);
    }
    seen.sort();
    assert_eq!(seen, ids);
}

#[test]
fn names_are_resolved_in_chunks() {
    for count in 0..100usize {
        assert_eq!(name_chunk_size(count), count.div_ceil(NAME_WORKERS).max(1));
    }
}

#[test]
fn qr_codes_are_square() {
    let url = "https://s.team/q/1/123456789";
    let rows = qr_rows(url).unwrap();
    let code = qrcode::QrCode::new(url).unwrap();
    assert_eq!(rows.len(), code.width());
    let colors = code.to_colors();
    for (y, row) in rows.iter().enumerate() {
        assert_eq!(row.len(), code.width());
        for (x, dark) in row.iter().enumerate() {
            assert_eq!(*dark, colors[y * code.width() + x] == qrcode::Color::Dark);
        }
    }
    // The finder pattern in the corner.
    assert_eq!(rows[0][..8], [true, true, true, true, true, true, true, false]);
    assert!(qr_rows(&"x".repeat(5000)).is_none());
}

#[test]
fn modules_are_cut_into_rows() {
    assert_eq!(
        module_rows(&vec![true, false, true], 2),
        vec![vec![true, false], vec![true]]
    );
    assert!(module_rows(&vec![], 3).is_empty());
}

#[test]
fn speeds_are_collected_by_the_second() {
    let mut history: SpeedHistory<(f64, f64)> = SpeedHistory::new(0);
    history.push((1.0, 1.0), 4 * SECOND);
    assert_eq!(history.samples().len(), 0);
    history.push((1.0, 2.0), 5 * SECOND);
    history.push((3.0, 4.0), 5 * SECOND + 1);
    assert_eq!(history.samples().len(), 0);
    history.push((5.0, 6.0), 6 * SECOND);
    assert_eq!(history.samples().len(), 1);
    assert_eq!(history.samples()[0].at, 6 * SECOND);
    assert_eq!(history.samples()[0].readings, vec![(1.0, 2.0), (3.0, 4.0), (5.0, 6.0)]);
    history.push((7.0, 7.0), 7 * SECOND);
    history.push((7.0, 7.0), 8 * SECOND);
    assert_eq!(history.samples().len(), 2);
    assert_eq!(
        history.shown(7 * SECOND),
        vec![ShownSample { index: 0, age: SECOND }]
    );
    assert_eq!(
        history.shown(9 * SECOND),
        vec![
            ShownSample { index: 0, age: 3 * SECOND },
            ShownSample { index: 1, age: SECOND },
        ]
    );
    history.clear(8 * SECOND);
    assert_eq!(history.samples().len(), 0);
    history.push((1.0, 1.0), 12 * SECOND);
    history.push((1.0, 1.0), 12 * SECOND + SECOND / 2);
    assert_eq!(history.samples().len(), 0);
}

#[test]
fn old_speeds_are_dropped() {
    let mut history: SpeedHistory<u8> = SpeedHistory::new(0);
    history.push(1, 5 * SECOND);
    history.push(1, 6 * SECOND);
    history.push(2, 141 * SECOND);
    history.push(2, 142 * SECOND);
    assert_eq!(history.samples().len(), 2);
    history.push(3, 142 * SECOND);
    history.push(3, 143 * SECOND);
    assert_eq!(history.samples().len(), 2);
    assert_eq!(history.samples()[0].at, 142 * SECOND);
}

#[test]
fn speeds_of_another_phase_are_forgotten() {
    let second = 1_000_000_000;
    let mut history: SpeedHistory<u8> = SpeedHistory::new(0);
    for at in 5..10 {
        history.push(1, at * second);
    }
    let before = history.samples().len();
    assert!(before > 0);
    let verifying = Some(DiskPhase::Verifying);
    history.enter_phase(verifying, verifying, 10 * second);
    assert_eq!(history.samples().len(), before);
    history.enter_phase(verifying, Some(DiskPhase::Downloading), 10 * second);
    assert!(history.samples().is_empty());
    // The ramp up after it is trimmed again.
    history.push(1, 14 * second);
    history.push(1, 15 * second - 1);
    assert!(history.samples().is_empty());
}

