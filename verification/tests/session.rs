use std::collections::{HashMap, HashSet};

use depot_downloader_gpui::app::download::{AfterFailure, DownloadForm, MAX_RETRIES};
use depot_downloader_gpui::app::form::{BranchRow, DlcRow, LoginSection};
use depot_downloader_gpui::app::process_events::FollowUp;
use depot_downloader_gpui::app::reported::Reported;
use depot_downloader_gpui::app::session::{default_download_dir, Session, SessionConfig};
use depot_downloader_gpui::app::state::{
    DiskPhase, Launch, LoginMode, PendingAction, PendingControl, Prompt, RunState, RunStats,
};
use depot_downloader_gpui::app::status::{progress_lines, Measured, Status};
use depot_downloader_gpui::depot_downloader::event::{
    AuthPromptKind, BranchInfo, Event, LogLevel, SteamApp,
};
use depot_downloader_gpui::depot_downloader::list::{ListPrompt, UserAppsEvent};
use depot_downloader_gpui::depot_downloader::process::{
    DownloadRequest, ExitOutcome, LoginMethod, ProcessEvent,
};

fn config(username: Option<&str>) -> SessionConfig {
    SessionConfig {
        last_app_id: None,
        last_download_location: None,
        last_max_downloads: String::new(),
        logged_in_username: username.map(str::to_string),
        branch_cache: HashMap::new(),
    }
}

fn app(app_id: u64, name: &str, app_type: &str) -> SteamApp {
    SteamApp { app_id, name: name.to_string(), app_type: app_type.to_string() }
}

fn ready(username: Option<&str>) -> Session {
    let mut session = Session::new(config(username));
    session.provisioned(Ok("/dd/DepotDownloader".to_string()));
    session.run_state = RunState::Idle;
    session.owned_apps = vec![app(1, "One", "Game"), app(11, "One DLC", "DLC")];
    session.free_apps = vec![app(1, "One again", "Game"), app(2, "Two", "game"), app(3, "T", "Tool")];
    session
}

fn form(dir: &str, max_downloads: &str) -> DownloadForm {
    DownloadForm {
        download_dir: dir.to_string(),
        max_downloads: max_downloads.to_string(),
        branch: Some("public".to_string()),
        dlc_ids: vec![11],
    }
}

fn started(username: Option<&str>, dir: &str) -> Session {
    let mut session = ready(username);
    session.on_game_selected(Some(1));
    let leg = session.start_download(form(dir, "")).unwrap();
    session.leg_looked_up(
        leg,
        Some(r#"{"data":{"1":{"config":{"installdir":"One Game"},"common":{"name":"One"}}}}"#),
    );
    session
}

#[test]
fn sessions_begin_in_preparation() {
    let session = Session::new(config(None));
    assert!(session.is_busy());
    assert!(session.is_awaiting_download_start());
    assert!(session.login_mode == LoginMode::UsernamePassword);
    assert!(session.add_to_steam_library);
    assert!(matches!(session.status(), Status::Line(text) if text == "Setting up DepotDownloader…"));
    assert_eq!(
        default_download_dir(&session.config, Some("/lib".to_string())).as_deref(),
        Some("/lib")
    );
    let mut known = config(None);
    known.last_download_location = Some("/last".to_string());
    assert_eq!(default_download_dir(&known, None).as_deref(), Some("/last"));
}

#[test]
fn provisioning_leads_to_the_library() {
    let mut session = Session::new(config(Some("gabe")));
    let launch = session.provisioned(Ok("/dd".to_string())).unwrap();
    assert_eq!(launch.binary, "/dd");
    assert!(matches!(
        launch.login,
        LoginMethod::RememberedUsername { username } if username == "gabe"
    ));
    assert!(matches!(session.run_state, RunState::FetchingLibrary));
    assert!(session.can_respond && !session.can_cancel);
    assert!(matches!(session.status(), Status::Blank));

    let mut session = Session::new(config(None));
    assert!(session.provisioned(Ok("/dd".to_string())).is_none());
    assert!(matches!(session.run_state, RunState::Idle));
    assert!(matches!(
        session.fetch_free_apps().unwrap().login,
        LoginMethod::Anonymous
    ));

    let mut session = Session::new(config(None));
    assert!(session.provisioned(Err("offline".to_string())).is_none());
    assert!(matches!(
        &session.run_state,
        RunState::Failed(message) if message == "Could not set up DepotDownloader: offline"
    ));
    assert!(session.fetch_free_apps().is_none());
}

#[test]
fn owned_apps_come_first() {
    let session = ready(None);
    let ids: Vec<u64> = session.combined_apps().iter().map(|app| app.app_id).collect();
    assert_eq!(ids, vec![1, 11, 2, 3]);
    assert_eq!(session.combined_apps()[0].name, "One");
    let games: Vec<u64> = session.combined_games().iter().map(|app| app.app_id).collect();
    assert_eq!(games, vec![1, 2]);
    assert_eq!(session.owned_dlc_ids(), [11].into_iter().collect::<HashSet<u64>>());
    let known: HashSet<u64> = [1].into_iter().collect();
    assert_eq!(session.missing_logos(&known), vec![2]);
}

#[test]
fn logging_in_uses_what_was_typed() {
    let mut session = ready(None);
    let launch = session.log_in(" gabe ", " pass ").unwrap();
    assert!(matches!(
        launch.login,
        LoginMethod::UsernamePassword { username, password }
            if username == "gabe" && password == " pass "
    ));
    session.login_mode = LoginMode::Qr;
    assert!(matches!(session.log_in("", "").unwrap().login, LoginMethod::Qr));
    assert!(session.pending_action == PendingAction::FetchLibrary);
}

#[test]
fn choosing_a_game_looks_it_up() {
    let mut session = ready(None);
    let selection = session.on_game_selected(Some(2));
    let lookup = selection.lookup.unwrap();
    assert!(lookup.list_branches);
    assert!(lookup.owned_dlc_ids.contains(&11));
    assert!(session.dlc_loading && session.branches_loading);
    assert_eq!(session.selected_app.as_ref().unwrap().name, "Two");
    let form = session.form(" /x/steamapps/common ");
    assert!(form.dlc == DlcRow::Loading);
    assert!(form.branch == BranchRow::Choice { loading: true });
    assert!(form.offers_steam_library && !form.download_disabled);

    session.dlc_found(&vec![]);
    let choice = session.branches_listed(
        2,
        Some(vec![BranchInfo {
            name: "beta".to_string(),
            build_id: 1,
            time_updated: 2,
            password_required: true,
        }]),
    );
    assert_eq!(choice.items[0].name, "beta");
    assert!(session.form("").dlc == DlcRow::Hidden);

    // Listed once, the branches are not listed again.
    let selection = session.on_game_selected(Some(2));
    assert!(!selection.lookup.unwrap().list_branches);
    assert_eq!(selection.branches.items[0].name, "beta");
    assert!(!session.branches_loading);

    // What is no game cannot be chosen, and the choice can be cleared.
    assert!(session.on_game_selected(Some(3)).lookup.is_none());
    assert!(session.selected_app.is_some());
    session.on_game_selected(None);
    assert!(session.selected_app.is_none());
    assert!(session.form("").download_disabled);
}

#[test]
fn downloads_need_a_game_and_a_valid_bound() {
    let mut session = ready(None);
    assert!(session.start_download(form("/x", "")).is_none());
    assert!(matches!(
        &session.run_state,
        RunState::Failed(message) if message == "Choose a game first."
    ));
    session.on_game_selected(Some(1));
    for wrong in ["0", "-1", "x", "4294967296", "1.5"] {
        assert!(session.start_download(form("/x", wrong)).is_none());
        assert!(matches!(
            &session.run_state,
            RunState::Failed(message)
                if message == "Max downloads must be a whole number greater than 0."
        ));
    }
    let leg = session.start_download(form(" /x ", " 8 ")).unwrap();
    assert_eq!(leg.app_id, "1");
    assert_eq!(leg.context.max_downloads, Some(8));
    assert_eq!(leg.context.library_dir.as_deref(), Some("/x"));
    assert_eq!(session.config.last_max_downloads, "8");
    assert_eq!(session.config.last_app_id, Some(1));
    assert_eq!(session.download_queue, vec![11]);
    assert_eq!(session.download_queue_total, 2);
    assert!(matches!(session.run_state, RunState::LookingUpApp));
    assert!(session.pending_action == PendingAction::Download);
}

#[test]
fn games_land_in_folders_of_their_own() {
    let session = started(Some("gabe"), "/lib/steamapps/common");
    let launch = session.last_request.as_ref().unwrap();
    assert_eq!(
        launch.request.download_dir.as_deref(),
        Some("/lib/steamapps/common/One Game")
    );
    assert_eq!(launch.branch.as_deref(), Some("public"));
    let pending = session.library_manifest.as_ref().unwrap();
    assert_eq!(pending.steamapps_dir, "/lib/steamapps");
    assert_eq!(pending.app_info.display_name.as_deref(), Some("One"));
    assert!(matches!(&session.run_state, RunState::Running(stats) if stats.status_message.is_empty()));

    let session = started(None, "/lib");
    assert!(session.library_manifest.is_none());
    let session = started(None, "  ");
    assert_eq!(session.last_request.as_ref().unwrap().request.download_dir, None);
}

#[test]
fn finished_downloads_are_told_to_steam_once() {
    let mut session = started(Some("gabe"), "/lib/steamapps/common");
    let stats = RunStats {
        is_finished: true,
        total_uncompressed_bytes: 77,
        depot_ids: vec![5],
        ..RunStats::default()
    };
    let reaction = session.apply_process_event(ProcessEvent::Stats(stats), 1000);
    let file = reaction.manifest.unwrap();
    assert_eq!(file.steamapps_dir, "/lib/steamapps");
    assert_eq!(file.file_name, "appmanifest_1.acf");
    assert!(file.contents.contains("\"LastUpdated\"\t\t\"1000\""));
    assert!(file.contents.contains("\"SizeOnDisk\"\t\t\"77\""));
    assert!(matches!(session.status(), Status::Finished { hint: None }));
    session.library_manifest_saved(true);
    assert!(matches!(
        session.status(),
        Status::Finished { hint: Some(hint) }
            if hint == "Restart Steam to see it added to your library."
    ));
    let again = RunStats { is_finished: true, ..RunStats::default() };
    assert!(session.apply_process_event(ProcessEvent::Stats(again), 1001).manifest.is_none());
}

#[test]
fn logins_are_remembered_on_success_alone() {
    let mut session = started(None, "");
    let failed = RunStats { error_message: Some("Bad password".to_string()), ..RunStats::default() };
    assert!(!session.apply_process_event(ProcessEvent::Stats(failed), 0).save_config);
    assert_eq!(session.config.logged_in_username, None);
    assert!(matches!(&session.run_state, RunState::Failed(message) if message == "Bad password"));

    let success = || RunStats {
        logged_in_username: Some("gabe".to_string()),
        ..RunStats::default()
    };
    assert!(session.apply_process_event(ProcessEvent::Stats(success()), 0).save_config);
    assert_eq!(session.config.logged_in_username.as_deref(), Some("gabe"));
    assert!(!session.apply_process_event(ProcessEvent::Stats(success()), 0).save_config);

    let expired = RunStats { login_expired: true, ..success() };
    assert!(session.apply_process_event(ProcessEvent::Stats(expired), 0).save_config);
    assert_eq!(session.config.logged_in_username, None);
}

#[test]
fn prompts_come_up_in_order() {
    let mut session = started(None, "");
    let prompt = |kind| {
        Some(Prompt { kind, message: "Code?".to_string() })
    };
    let both = RunStats {
        qr_url: Some("https://s.team".to_string()),
        auth_prompt: prompt(AuthPromptKind::EmailCode),
        ..RunStats::default()
    };
    session.apply_process_event(ProcessEvent::Stats(both), 0);
    assert!(matches!(
        session.status(),
        Status::QrCode { heading, code }
            if heading == "Scan this with the Steam Mobile app:" && code == "https://s.team"
    ));
    let code = RunStats { auth_prompt: prompt(AuthPromptKind::EmailCode), ..RunStats::default() };
    session.apply_process_event(ProcessEvent::Stats(code), 0);
    assert!(matches!(session.status(), Status::GuardCode { label } if label == "Code?"));
    assert_eq!(session.submit_guard_code("  "), None);
    assert_eq!(session.submit_guard_code(" 12345 ").as_deref(), Some("12345"));
    assert!(matches!(session.run_state, RunState::Running(_)));
    let confirm = RunStats {
        auth_prompt: prompt(AuthPromptKind::DeviceConfirmation),
        ..RunStats::default()
    };
    session.apply_process_event(ProcessEvent::Stats(confirm), 0);
    assert!(matches!(
        session.status(),
        Status::Line(text) if text == "Confirm this sign-in in the Steam Mobile app…"
    ));
    session.apply_process_event(ProcessEvent::Exited(ExitOutcome::Success), 0);
    assert!(matches!(
        &session.run_state,
        RunState::Failed(text) if text == "DepotDownloader exited before finishing the download."
    ));
}

#[test]
fn pausing_and_resuming_keeps_the_request() {
    let mut session = started(None, "/lib");
    session.login_mode = LoginMode::Qr;
    assert!(session.request_pause());
    let controls = session.controls();
    assert_eq!(controls.pause_label, "Pausing…");
    assert_eq!(controls.cancel_label, "Cancel");
    assert!(controls.disabled);
    session.apply_process_event(ProcessEvent::Exited(ExitOutcome::Success), 0);
    assert!(matches!(session.run_state, RunState::Paused(_)));
    assert_eq!(session.form("").download_label, "Paused");
    session.config.logged_in_username = Some("gabe".to_string());
    let before = session.last_request.clone().unwrap();
    let launch = session.resume_download().unwrap();
    assert_eq!(launch.request.download_dir, before.request.download_dir);
    assert_eq!(launch.request.app_id, before.request.app_id);
    assert_eq!(launch.branch, before.branch);
    assert!(matches!(
        launch.request.login,
        LoginMethod::RememberedUsername { username } if username == "gabe"
    ));
    assert_eq!(session.form("").download_label, "Working…");
}

#[test]
fn cancelling_ends_the_download() {
    let mut session = started(None, "/lib");
    assert!(session.request_cancel());
    assert!(session.pending_control == Some(PendingControl::Cancelling));
    session.apply_process_event(
        ProcessEvent::Exited(ExitOutcome::Failure { status: "signal: 9".to_string() }),
        0,
    );
    assert!(matches!(session.run_state, RunState::Idle));
    assert!(session.pending_control.is_none());

    // A paused download has no process left to signal.
    let mut session = started(None, "/lib");
    session.run_state = RunState::Paused(RunStats::default());
    assert!(!session.request_cancel());
    assert!(matches!(session.run_state, RunState::Idle));
}

#[test]
fn failures_are_retried_a_few_times() {
    let mut session = started(None, "/lib");
    for attempt in 1..=MAX_RETRIES {
        assert!(session.handle_unexpected_failure("Lost".to_string()) == AfterFailure::Retry);
        let expected = format!(
            "Lost connection to Steam. Reconnecting… (attempt {attempt} of {MAX_RETRIES})"
        );
        assert!(matches!(session.status(), Status::Line(text) if text == expected));
    }
    assert!(session.handle_unexpected_failure("Lost".to_string()) == AfterFailure::GaveUp);
    assert!(matches!(
        &session.run_state,
        RunState::Failed(text) if text == "Lost (gave up after 3 retries.)"
    ));
    let mut idle = ready(None);
    assert!(idle.handle_unexpected_failure("Lost".to_string()) == AfterFailure::GaveUp);
    assert!(matches!(&idle.run_state, RunState::Failed(text) if text == "Lost"));
    assert!(idle.resume_download().is_none());
}

#[test]
fn exits_that_nobody_asked_for_are_retried() {
    let mut session = started(None, "/lib");
    let lost = || ProcessEvent::Exited(ExitOutcome::Failure { status: "exit status: 1".to_string() });
    for attempt in 1..=MAX_RETRIES {
        let (_, follow_up) = session.follow_process_event(lost(), 0);
        assert!(matches!(follow_up, FollowUp::Retry));
        assert!(matches!(session.run_state, RunState::Reconnecting { attempt: shown } if shown == attempt));
        assert!(session.resume_download().is_some());
    }
    let (_, follow_up) = session.follow_process_event(lost(), 0);
    assert!(matches!(follow_up, FollowUp::Nothing));
    assert!(matches!(
        &session.run_state,
        RunState::Failed(text)
            if text == "DepotDownloader exited with exit status: 1 (gave up after 3 retries.)"
    ));

    // What the user asked for is not retried, nor what has finished.
    let mut session = started(None, "/lib");
    session.request_cancel();
    let (_, follow_up) = session.follow_process_event(lost(), 0);
    assert!(matches!(follow_up, FollowUp::Nothing));
    assert!(matches!(session.run_state, RunState::Idle));
    let mut session = started(None, "/lib");
    let done = RunStats { is_finished: true, ..RunStats::default() };
    let (_, follow_up) = session.follow_process_event(ProcessEvent::Stats(done), 0);
    assert!(matches!(follow_up, FollowUp::Nothing));
    let (_, follow_up) = session.follow_process_event(lost(), 0);
    assert!(matches!(follow_up, FollowUp::NextLeg(leg) if leg.app_id == "11"));
}

#[test]
fn phases_are_those_of_the_snapshot() {
    let stats = RunStats::default();
    assert_eq!(stats.disk_phase(), None);
    let stats = RunStats { is_verifying: true, ..RunStats::default() };
    assert_eq!(stats.disk_phase(), Some(DiskPhase::Verifying));
    let stats = RunStats { network_bytes: 1, ..RunStats::default() };
    assert_eq!(stats.disk_phase(), Some(DiskPhase::Downloading));
}

#[test]
fn logins_renew_the_retries() {
    let mut session = started(None, "/lib");
    session.handle_unexpected_failure("Lost".to_string());
    session.handle_unexpected_failure("Lost".to_string());
    session.apply_process_event(ProcessEvent::Stats(RunStats::default()), 0);
    assert_eq!(session.retry_count, 2);
    let success = RunStats {
        logged_in_username: Some("gabe".to_string()),
        ..RunStats::default()
    };
    session.apply_process_event(ProcessEvent::Stats(success), 0);
    assert_eq!(session.retry_count, 0);

    session.handle_unexpected_failure("Lost".to_string());
    session.apply_user_apps_event(UserAppsEvent::LoginSuccess { username: None });
    assert_eq!(session.retry_count, 0);
}

#[test]
fn checked_dlc_are_downloaded_one_after_the_other() {
    let mut session = ready(None);
    session.on_game_selected(Some(1));
    let mut form = form("/lib", "8");
    form.dlc_ids = vec![12, 11];
    let leg = session.start_download(form).unwrap();
    assert_eq!(leg.app_id, "1");
    session.leg_looked_up(leg, None);
    // A leg that is not finished is not followed by another.
    assert!(session.continue_queue().is_none());
    assert_eq!(session.download_queue, vec![12, 11]);

    for (app_id, left) in [("12", vec![11]), ("11", vec![])] {
        let done = RunStats {
            logged_in_username: Some("gabe".to_string()),
            is_finished: true,
            ..RunStats::default()
        };
        session.apply_process_event(ProcessEvent::Stats(done), 0);
        session.apply_process_event(ProcessEvent::Exited(ExitOutcome::Success), 0);
        let leg = session.continue_queue().unwrap();
        assert_eq!(leg.app_id, app_id);
        assert_eq!(leg.binary, "/dd/DepotDownloader");
        assert_eq!(leg.context.library_dir.as_deref(), Some("/lib"));
        assert_eq!(leg.context.max_downloads, Some(8));
        assert!(matches!(
            &leg.login,
            LoginMethod::RememberedUsername { username } if username == "gabe"
        ));
        assert!(matches!(session.run_state, RunState::LookingUpApp));
        assert_eq!(session.download_queue, left);
        assert_eq!(session.download_queue_total, 3);
        let launch = session.leg_looked_up(leg, None);
        assert_eq!(launch.request.app_id, app_id);
    }
    session.run_state = RunState::Finished(RunStats::default());
    assert!(session.continue_queue().is_none());
    assert!(matches!(session.run_state, RunState::Finished(_)));
    assert!(session.next_leg("/dd".to_string(), LoginMethod::Anonymous).is_none());
}

#[test]
fn launches_name_their_branch() {
    let mut launch = Launch {
        request: DownloadRequest {
            depot_downloader_binary: "/dd".to_string(),
            app_id: "440".to_string(),
            download_dir: None,
            max_downloads: None,
            login: LoginMethod::UsernamePassword {
                username: "gabe".to_string(),
                password: "secret".to_string(),
            },
        },
        branch: Some("beta".to_string()),
    };
    let common = ["-app", "440", "-json", "-remember-password", "-username", "gabe", "-password"];
    let with = |rest: &[&'static str]| [&common[..], rest].concat();
    assert_eq!(launch.build_args(), with(&["secret", "-branch", "beta"]));
    assert_eq!(launch.build_args_for_logging(), with(&["***", "-branch", "beta"]));
    launch.branch = None;
    assert_eq!(launch.build_args(), launch.request.build_args());
    assert_eq!(launch.build_args_for_logging(), with(&["***"]));
}

#[test]
fn runs_are_what_they_report() {
    let mut reported = Reported::default();
    assert_eq!(reported.stats().status_message, "");
    reported.take(Event::Log { level: LogLevel::Info, message: "Connecting".to_string() });
    reported.take(Event::Qr { url: "u".to_string() });
    reported.take(Event::AuthPrompt {
        kind: AuthPromptKind::EmailCode,
        message: "Code?".to_string(),
    });
    let stats = reported.stats();
    assert_eq!(stats.status_message, "Connecting");
    assert_eq!(stats.qr_url.as_deref(), Some("u"));
    assert_eq!(stats.auth_prompt.unwrap().message, "Code?");
    assert!(!reported.login_expired());
    reported.take(Event::LoginSuccess { username: Some("gabe".to_string()) });
    let stats = reported.stats();
    assert!(stats.qr_url.is_none() && stats.auth_prompt.is_none());
    assert_eq!(stats.logged_in_username.as_deref(), Some("gabe"));

    reported.take(Event::Plan {
        total_compressed_bytes: 10,
        total_uncompressed_bytes: 20,
        total_files: 3,
    });
    reported.take(Event::DepotStart { depot_id: 5 });
    reported.take(Event::DepotStart { depot_id: 6 });
    reported.take(Event::Progress {
        network_bytes: 0,
        written_bytes: 1,
        verified_bytes: 7,
        files_done: 1,
        current_file: Some("a.pak".to_string()),
    });
    let stats = reported.stats();
    assert!(stats.is_verifying && !stats.is_finished);
    assert_eq!(stats.status_message, "a.pak");
    assert_eq!(stats.depot_ids, vec![5, 6]);
    assert_eq!((stats.network_total_bytes, stats.total_uncompressed_bytes), (10, 20));
    assert_eq!((stats.files_done, stats.total_files), (1, 3));
    assert_eq!(reported.counters(), (0, 8));
    reported.take(Event::Ignored);
    reported.take(Event::Done {
        network_bytes: 4,
        written_bytes: u64::MAX,
        verified_bytes: 7,
    });
    let stats = reported.stats();
    assert!(stats.is_finished && !stats.is_verifying);
    assert_eq!(stats.completed_uncompressed_bytes, u64::MAX);
    reported.take(Event::Error { message: "no".to_string() });
    assert_eq!(reported.stats().error_message.as_deref(), Some("no"));

    let mut expired = Reported::default();
    expired.take(Event::AuthPrompt {
        kind: AuthPromptKind::Password,
        message: "Password:".to_string(),
    });
    assert!(expired.login_expired() && expired.stats().login_expired);
}

#[test]
fn logging_out_forgets_the_account() {
    let mut session = ready(Some("gabe"));
    assert!(matches!(
        session.login_section(),
        LoginSection::LoggedIn { text, disabled: false } if text == "Logged in as gabe"
    ));
    assert_eq!(session.logout().as_deref(), Some("/dd/DepotDownloader"));
    assert!(session.owned_apps.is_empty());
    assert!(matches!(session.current_login_method(), LoginMethod::Anonymous));
    assert!(matches!(
        session.login_section(),
        LoginSection::LoggedOut { mode: LoginMode::UsernamePassword, disabled: false }
    ));
}

#[test]
fn listed_apps_become_the_owned_ones() {
    let mut session = ready(None);
    session.log_in("gabe", "pass");
    assert!(!session.apply_user_apps_event(UserAppsEvent::Prompt(ListPrompt::Qr {
        url: "u".to_string()
    })));
    assert!(matches!(&session.run_state, RunState::ShowingQrCode { url } if url == "u"));
    assert!(session.apply_user_apps_event(UserAppsEvent::LoginSuccess {
        username: Some("gabe".to_string())
    }));
    assert!(!session.apply_user_apps_event(UserAppsEvent::Apps(vec![app(9, "Nine", "Game")])));
    assert_eq!(session.owned_apps.len(), 1);
    assert!(matches!(session.run_state, RunState::Idle));
    assert_eq!(session.config.logged_in_username.as_deref(), Some("gabe"));
    assert!(session.apply_user_apps_event(UserAppsEvent::LoginExpired));
    assert_eq!(session.config.logged_in_username, None);
    session.apply_user_apps_event(UserAppsEvent::Error("no".to_string()));
    assert!(matches!(&session.run_state, RunState::Failed(text) if text == "no"));
}

#[test]
fn start_failures_are_shown() {
    let mut session = started(None, "/lib");
    session.apply_process_event(ProcessEvent::FailedToStart("no binary".to_string()), 0);
    assert!(matches!(session.status(), Status::Failed(text) if text == "no binary"));
    assert!(session.is_awaiting_download_start() && !session.is_busy());
}

#[test]
fn progress_is_told_in_lines() {
    let stats = RunStats {
        network_bytes: 1024,
        network_total_bytes: 2048,
        completed_uncompressed_bytes: 512,
        total_uncompressed_bytes: 4096,
        files_done: 3,
        total_files: 9,
        ..RunStats::default()
    };
    let measured = Measured {
        percent_tenths: 125,
        eta_seconds: Some(65),
        download_speed: 2048,
        disk_speed: 100,
    };
    assert_eq!(
        progress_lines(&stats, measured),
        vec![
            "Progress: 12.5%",
            "ETA: 1m 5s",
            "Downloaded: 1.0 KB of 2.0 KB",
            "Written to disk: 512 B of 4.0 KB",
            "Files: 3 of 9",
            "Download: 2.0 KB/s",
            "Disk: 100 B/s",
        ]
    );
    let verifying = RunStats { is_verifying: true, ..stats };
    assert_eq!(
        progress_lines(&verifying, measured),
        vec![
            "Progress: 12.5%",
            "ETA: 1m 5s",
            "Validated: 512 B of 4.0 KB",
            "Files: 3 of 9",
            "Validate: 100 B/s",
        ]
    );
}
