use depot_downloader_gpui::app::state::LoginMode;
use depot_downloader_gpui::app::status::Status;
use depot_downloader_gpui::config::Config;
use depot_downloader_gpui::console::{
    console_progress_lines, initial_download_dir, ConsoleForm, ConsoleSession, ConsoleState,
};
use depot_downloader_gpui::depot_downloader::percent::Percent;
use depot_downloader_gpui::depot_downloader::process::{ExitOutcome, LoginMethod, ProcessEvent};
use depot_downloader_gpui::depot_downloader::progress::{AuthPrompt, DownloadStats};

fn form(app_id: &str) -> ConsoleForm {
    ConsoleForm {
        app_id: app_id.to_string(),
        download_dir: " /games ".to_string(),
        username: " gabe ".to_string(),
        password: "secret".to_string(),
    }
}

fn ready() -> ConsoleSession {
    let mut session = ConsoleSession::new(Config::default());
    session.provisioned(Ok(("/dd".to_string(), Config::default())));
    session
}

#[test]
fn console_downloads_need_an_app_id() {
    let mut session = ConsoleSession::new(Config::default());
    assert!(session.is_busy());
    assert!(session.start_download(form("440")).is_none());
    let mut session = ready();
    assert!(session.start_download(form("  ")).is_none());
    assert!(matches!(
        &session.run_state,
        ConsoleState::Failed(text) if text == "Enter a Steam app id first."
    ));
    let request = session.start_download(form(" 440 ")).unwrap();
    assert_eq!(request.app_id, "440");
    assert_eq!(request.download_dir.as_deref(), Some("/games"));
    assert_eq!(session.config.last_app_id, "440");
    assert_eq!(session.pending_login_username.as_deref(), Some("gabe"));
    assert!(matches!(
        request.login,
        LoginMethod::UsernamePassword { username, password }
            if username == "gabe" && password == "secret"
    ));
    assert_eq!(session.download_label(), "Working…");
}

#[test]
fn console_logins_are_remembered_with_progress() {
    let mut session = ready();
    session.start_download(form("440"));
    let prompt = DownloadStats { auth_prompt: Some(AuthPrompt::Code), ..DownloadStats::default() };
    assert!(!session.apply_process_event(ProcessEvent::Stats(prompt)));
    assert_eq!(session.config.logged_in_username, None);
    assert!(matches!(
        session.status(),
        Status::GuardCode { label } if label == "Enter your Steam Guard code"
    ));
    assert_eq!(session.submit_guard_code(" A1 ").as_deref(), Some("A1"));
    let email = DownloadStats {
        auth_prompt: Some(AuthPrompt::EmailCode { email: "a@b".to_string() }),
        ..DownloadStats::default()
    };
    session.apply_process_event(ProcessEvent::Stats(email));
    assert!(matches!(
        session.status(),
        Status::GuardCode { label } if label == "Enter the code emailed to a@b"
    ));
    let failed = DownloadStats {
        error_message: Some("Bad password".to_string()),
        ..DownloadStats::default()
    };
    assert!(!session.apply_process_event(ProcessEvent::Stats(failed)));
    assert_eq!(session.config.logged_in_username, None);
    assert!(session.apply_process_event(ProcessEvent::Stats(DownloadStats::default())));
    assert_eq!(session.config.logged_in_username.as_deref(), Some("gabe"));
    assert!(!session.apply_process_event(ProcessEvent::Stats(DownloadStats::default())));
}

#[test]
fn console_qr_logins_are_credited_once_known() {
    let mut session = ready();
    session.login_mode = LoginMode::Qr;
    session.start_download(form("440"));
    assert_eq!(session.pending_login_username, None);
    let qr = DownloadStats {
        qr_code_ascii_art: Some("██".to_string()),
        error_message: Some("later".to_string()),
        ..DownloadStats::default()
    };
    session.apply_process_event(ProcessEvent::Stats(qr));
    assert!(matches!(session.status(), Status::QrCode { code, .. } if code == "██"));
    assert!(!session.apply_process_event(ProcessEvent::Stats(DownloadStats::default())));
    let known = DownloadStats {
        qr_resolved_username: Some("newell".to_string()),
        ..DownloadStats::default()
    };
    assert!(session.apply_process_event(ProcessEvent::Stats(known)));
    assert_eq!(session.config.logged_in_username.as_deref(), Some("newell"));
}

#[test]
fn console_downloads_pause_and_resume() {
    let mut session = ready();
    session.start_download(form("440"));
    session.apply_process_event(ProcessEvent::Stats(DownloadStats::default()));
    assert!(session.request_pause());
    session.apply_process_event(ProcessEvent::Exited(ExitOutcome::Success));
    assert!(matches!(session.run_state, ConsoleState::Paused(_)));
    assert_eq!(session.download_label(), "Paused");
    let request = session.resume_download().unwrap();
    assert_eq!(request.app_id, "440");
    assert!(matches!(
        request.login,
        LoginMethod::RememberedUsername { username } if username == "gabe"
    ));
    assert!(session.request_cancel());
    session.apply_process_event(ProcessEvent::Exited(ExitOutcome::Success));
    assert!(matches!(session.run_state, ConsoleState::Idle));
    assert!(matches!(session.status(), Status::Blank));
    assert_eq!(session.logout().as_deref(), Some("/dd"));
    assert!(session.resume_download().is_none());
}

#[test]
fn console_exits_are_judged_by_the_stats() {
    let mut session = ready();
    session.start_download(form("440"));
    session.apply_process_event(ProcessEvent::Exited(ExitOutcome::Unknown {
        error: "gone".to_string(),
    }));
    assert!(matches!(
        session.status(),
        Status::Failed(text) if text == "DepotDownloader could not be waited on: gone"
    ));
    session.start_download(form("440"));
    let finished = DownloadStats { is_finished: true, ..DownloadStats::default() };
    session.apply_process_event(ProcessEvent::Stats(finished));
    assert!(matches!(session.status(), Status::Finished { hint: None }));
    session.apply_process_event(ProcessEvent::Exited(ExitOutcome::Success));
    assert!(matches!(session.run_state, ConsoleState::Finished(_)));
    session.provisioned(Err("offline".to_string()));
    assert!(matches!(
        session.status(),
        Status::Failed(text) if text == "Could not set up DepotDownloader: offline"
    ));
}

#[test]
fn console_progress_is_told_in_lines() {
    let stats = DownloadStats {
        status_message: "Downloading depot 1".to_string(),
        current_depot_percent: Percent::Hundredths(1234),
        downloaded_bytes: 1024,
        total_size_estimate_bytes: 2048,
        ..DownloadStats::default()
    };
    assert_eq!(
        console_progress_lines(&stats, 2048, 1, None),
        vec![
            "Downloading depot 1",
            "Depot progress: 12.3%",
            "Downloaded: 1.0 KB of 2.0 KB",
            "Download speed: 2.0 KB/s",
            "Disk speed: 1 B/s",
            "ETA: Calculating…",
        ]
    );
}

#[test]
fn console_starts_where_it_was() {
    let mut config = Config::default();
    assert_eq!(initial_download_dir(&config, Some("/x/440".to_string())), None);
    config.last_app_id = "440".to_string();
    assert_eq!(
        initial_download_dir(&config, Some("/x/440".to_string())).as_deref(),
        Some("/x/440")
    );
    config.last_download_location = Some("/last".to_string());
    assert_eq!(initial_download_dir(&config, None).as_deref(), Some("/last"));
}
