use depot_downloader_gpui::config::{config_file_path, config_file_path_in, Config, ProjectPaths};
use depot_downloader_gpui::depot_downloader::event::{
    AuthPromptKind, BranchInfo, Event, LogLevel, SteamApp,
};
use depot_downloader_gpui::depot_downloader::list::{
    after_report, branches_step, list_branches_args, list_user_apps_args, user_apps_event,
    BranchesStep, ListNext, ListPrompt, UserAppsEvent,
};
use depot_downloader_gpui::depot_downloader::process::{
    after_sample, after_sending, describe_unexpected_exit, directory_failure, start_failure,
    DownloadRequest, ExitOutcome, LoginMethod, Next, Sample, Step,
};
use depot_downloader_gpui::depot_downloader::provisioning::{
    asset_file_name, binary_file_name, entry_is_binary, executable_mode, find_binary_entry,
    install_dir, install_dir_in, provisioning_plan, provisioning_step, ProvisioningError,
    ProvisioningStep,
};
use depot_downloader_gpui::paths::{Arch, Os};

fn request(login: LoginMethod) -> DownloadRequest {
    DownloadRequest {
        depot_downloader_binary: "/bin/dd".to_string(),
        app_id: "440".to_string(),
        download_dir: Some("/games".to_string()),
        max_downloads: Some(8),
        login,
    }
}

fn with_password() -> LoginMethod {
    LoginMethod::UsernamePassword {
        username: "gabe".to_string(),
        password: "secret".to_string(),
    }
}

#[test]
fn builds_arguments_in_order() {
    assert_eq!(
        request(with_password()).build_args(),
        vec![
            "-app",
            "440",
            "-json",
            "-remember-password",
            "-dir",
            "/games",
            "-max-downloads",
            "8",
            "-username",
            "gabe",
            "-password",
            "secret",
        ]
    );
    let mut bare = request(LoginMethod::Qr);
    bare.download_dir = None;
    bare.max_downloads = None;
    assert_eq!(bare.build_args(), vec!["-app", "440", "-json", "-remember-password", "-qr"]);
    bare.login = LoginMethod::RememberedUsername { username: "gabe".to_string() };
    assert_eq!(
        bare.build_args(),
        vec!["-app", "440", "-json", "-remember-password", "-username", "gabe"]
    );
    bare.login = LoginMethod::Anonymous;
    assert_eq!(bare.build_args(), vec!["-app", "440", "-json"]);
}

#[test]
fn logged_arguments_hide_the_password() {
    let logged = request(with_password()).build_args_for_logging();
    let mut expected = request(with_password()).build_args();
    *expected.last_mut().unwrap() = "***".to_string();
    assert_eq!(logged, expected);
    let qr = request(LoginMethod::Qr);
    assert_eq!(qr.build_args_for_logging(), qr.build_args());
}

#[test]
fn the_password_is_blanked_whatever_the_other_arguments_read() {
    let mut odd = request(LoginMethod::UsernamePassword {
        username: "-password".to_string(),
        password: "s3cret".to_string(),
    });
    odd.download_dir = None;
    odd.max_downloads = None;
    assert_eq!(
        odd.build_args_for_logging(),
        vec![
            "-app",
            "440",
            "-json",
            "-remember-password",
            "-username",
            "-password",
            "-password",
            "***",
        ]
    );
    odd.app_id = "-password".to_string();
    odd.download_dir = Some("-password".to_string());
    assert!(!odd.build_args_for_logging().contains(&"s3cret".to_string()));
}

#[test]
fn samples_decide_what_follows() {
    assert_eq!(
        after_sample(Sample::CancelRequested, false),
        Step { send_stats: false, kill: true, stop: true }
    );
    assert_eq!(
        after_sample(Sample::LineChannelClosed, true),
        Step { send_stats: false, kill: false, stop: true }
    );
    assert_eq!(
        after_sample(Sample::Line { is_event: false }, false),
        Step { send_stats: false, kill: false, stop: false }
    );
    let expired = after_sample(Sample::Line { is_event: true }, true);
    assert_eq!(expired, Step { send_stats: true, kill: true, stop: true });
    assert_eq!(after_sending(expired, true), Next::AwaitExit { kill: true });
    assert_eq!(after_sending(expired, false), Next::Leave);
    let refreshed = after_sample(Sample::SpeedRefreshDue { changed: true }, false);
    assert_eq!(after_sending(refreshed, true), Next::Continue);
    let unchanged = after_sample(Sample::SpeedRefreshDue { changed: false }, false);
    assert_eq!(after_sending(unchanged, false), Next::Continue);
}

#[test]
fn exits_and_failures_are_described() {
    assert_eq!(
        describe_unexpected_exit(&ExitOutcome::Success),
        "DepotDownloader exited before finishing the download."
    );
    assert_eq!(
        describe_unexpected_exit(&ExitOutcome::Failure { status: "exit status: 1".to_string() }),
        "DepotDownloader exited with exit status: 1"
    );
    assert_eq!(
        describe_unexpected_exit(&ExitOutcome::Unknown { error: "gone".to_string() }),
        "DepotDownloader could not be waited on: gone"
    );
    assert_eq!(directory_failure("no"), "Could not create download directory: no");
    assert_eq!(start_failure("no"), "Could not start DepotDownloader: no");
}

#[test]
fn lists_with_and_without_an_account() {
    assert_eq!(
        list_user_apps_args(&LoginMethod::Qr),
        vec!["-list-user-apps", "-json", "-remember-password", "-qr"]
    );
    assert_eq!(list_user_apps_args(&LoginMethod::Anonymous), vec!["-list-user-apps", "-json"]);
    assert_eq!(
        list_branches_args(440, &LoginMethod::RememberedUsername { username: "g".to_string() }),
        vec![
            "-app",
            "440",
            "-list-branches",
            "-json",
            "-remember-password",
            "-username",
            "g",
        ]
    );
    assert_eq!(
        list_branches_args(440, &LoginMethod::Anonymous),
        vec!["-app", "440", "-list-branches", "-json"]
    );
}

#[test]
fn app_listing_events_are_reported() {
    let expired = user_apps_event(Event::AuthPrompt {
        kind: AuthPromptKind::Password,
        message: "Password:".to_string(),
    })
    .unwrap();
    assert!(matches!(expired, UserAppsEvent::LoginExpired));
    assert!(expired.is_answer() && expired.is_last());

    let prompt = user_apps_event(Event::AuthPrompt {
        kind: AuthPromptKind::EmailCode,
        message: "Code:".to_string(),
    })
    .unwrap();
    assert!(matches!(
        &prompt,
        UserAppsEvent::Prompt(ListPrompt::AuthPrompt { kind: AuthPromptKind::EmailCode, message })
            if message == "Code:"
    ));
    assert!(!prompt.is_answer() && !prompt.is_last());

    let apps = user_apps_event(Event::UserApps {
        apps: vec![SteamApp { app_id: 1, name: "A".to_string(), app_type: "Game".to_string() }],
        count: 1,
    })
    .unwrap();
    assert!(apps.is_answer());
    assert!(user_apps_event(Event::Ignored).is_none());
    assert!(user_apps_event(Event::DepotStart { depot_id: 1 }).is_none());
    assert!(UserAppsEvent::Exited.is_last() && !UserAppsEvent::Exited.is_answer());

    assert_eq!(after_report(true, true), ListNext::KillAndAwaitExit);
    assert_eq!(after_report(false, false), ListNext::KillAndAwaitExit);
    assert_eq!(after_report(false, true), ListNext::Continue);
}

#[test]
fn branch_listing_gives_up_on_prompts() {
    let branch = BranchInfo {
        name: "public".to_string(),
        build_id: 1,
        time_updated: 2,
        password_required: false,
    };
    assert!(matches!(
        branches_step(Event::Log { level: LogLevel::Info, message: String::new() }),
        BranchesStep::Continue
    ));
    assert!(matches!(
        branches_step(Event::LoginSuccess { username: None }),
        BranchesStep::Continue
    ));
    assert!(matches!(
        branches_step(Event::Branches { app_id: 1, branches: vec![branch] }),
        BranchesStep::Found(branches) if branches.len() == 1 && branches[0].name == "public"
    ));
    assert!(matches!(
        branches_step(Event::Error { message: "no".to_string() }),
        BranchesStep::GiveUp
    ));
    assert!(matches!(branches_step(Event::Qr { url: "u".to_string() }), BranchesStep::GiveUp));
}

#[test]
fn app_types_compare_without_case() {
    let app = SteamApp { app_id: 730, name: "CS".to_string(), app_type: "Game".to_string() };
    assert!(app.is_type("game"));
    assert!(app.is_type("GAME"));
    assert!(!app.is_type("games"));
    assert!(!app.is_type("dlc"));
}

#[test]
fn releases_are_named_by_platform() {
    assert_eq!(asset_file_name(Os::Linux, Arch::X64), "DepotDownloader-linux-x64.zip");
    assert_eq!(asset_file_name(Os::MacOs, Arch::Arm64), "DepotDownloader-macos-arm64.zip");
    assert_eq!(asset_file_name(Os::Windows, Arch::Arm), "DepotDownloader-windows-arm.zip");
    assert_eq!(binary_file_name(Os::Windows), "DepotDownloader.exe");
    assert_eq!(binary_file_name(Os::Linux), "DepotDownloader");
    let plan = provisioning_plan("/data/depot-downloader-fork", Os::Linux, Arch::X64);
    assert_eq!(plan.binary_path, "/data/depot-downloader-fork/DepotDownloader");
    assert_eq!(
        plan.archive_path,
        "/data/depot-downloader-fork/DepotDownloader-linux-x64.zip"
    );
    assert_eq!(
        plan.url,
        "https://github.com/deezhizyu/depot-downloader/releases/latest/download/DepotDownloader-linux-x64.zip"
    );
    assert_eq!(provisioning_step(true), ProvisioningStep::UseBinary);
    assert_eq!(provisioning_step(false), ProvisioningStep::DownloadArchive);
}

#[test]
fn the_executable_is_found_in_the_archive() {
    let entries = vec![
        Some("README.md".to_string()),
        None,
        Some("dir/DepotDownloader".to_string()),
        Some("DepotDownloader".to_string()),
    ];
    assert!(matches!(find_binary_entry(&entries, Os::Linux), Ok(2)));
    match find_binary_entry(&entries, Os::Windows) {
        Err(error) => assert_eq!(
            error.message(),
            "DepotDownloader.exe was not found inside the downloaded DepotDownloader archive"
        ),
        Ok(index) => panic!("{index}"),
    }
    assert!(!entry_is_binary(&Some("a\\DepotDownloader".to_string()), Os::Linux));
    assert!(entry_is_binary(&Some("a\\DepotDownloader.exe".to_string()), Os::Windows));
}

#[test]
fn executables_keep_their_permissions() {
    assert_eq!(executable_mode(0o100644), 0o100755);
    assert_eq!(executable_mode(0o777), 0o777);
}

#[test]
fn directories_decide_where_things_go() {
    let dirs = Some(ProjectPaths {
        config_dir: "/home/u/.config/app".to_string(),
        data_dir: "/home/u/.local/share/app/".to_string(),
    });
    assert_eq!(
        config_file_path_in(&dirs).as_deref(),
        Some("/home/u/.config/app/config.json")
    );
    assert_eq!(
        install_dir_in(&dirs).unwrap(),
        "/home/u/.local/share/app/depot-downloader-fork"
    );
    assert_eq!(config_file_path_in(&None), None);
    match install_dir_in(&None) {
        Err(error) => {
            assert!(matches!(error, ProvisioningError::NoDataDirectory));
            assert_eq!(
                error.message(),
                "could not determine a data directory for this platform"
            );
        }
        Ok(dir) => panic!("{dir}"),
    }
    if let Some(path) = config_file_path() {
        assert!(path.ends_with("config.json"));
        let dir = path
            .strip_suffix("/config.json")
            .or_else(|| path.strip_suffix("\\config.json"))
            .unwrap();
        assert!(
            dir.ends_with("/depotdownloadergui")
                || dir.ends_with("/dev.DepotDownloaderGpui.DepotDownloader-GUI")
                || dir.ends_with("DepotDownloaderGpui\\DepotDownloader GUI\\config")
        );
    }
    if let Ok(dir) = install_dir() {
        let data = dir
            .strip_suffix("/depot-downloader-fork")
            .or_else(|| dir.strip_suffix("\\depot-downloader-fork"))
            .unwrap();
        assert!(
            data.ends_with("/depotdownloadergui")
                || data.ends_with("/dev.DepotDownloaderGpui.DepotDownloader-GUI")
                || data.ends_with("DepotDownloaderGpui\\DepotDownloader GUI\\data")
        );
    }
}

#[test]
fn settings_fall_back_to_the_first_launch() {
    let config = Config::load(None);
    assert_eq!(config.last_app_id, "");
    assert_eq!(config.logged_in_username, None);
    let stored = Config { last_app_id: "440".to_string(), ..Config::default() };
    assert_eq!(Config::load(Some(stored)).last_app_id, "440");
}

fn listed(events: Vec<Event>) -> Vec<String> {
    let mut told = Vec::new();
    for event in events {
        let Some(report) = user_apps_event(event) else {
            continue;
        };
        let is_answer = report.is_answer();
        told.push(match report {
            UserAppsEvent::Prompt(_) => "prompt".to_string(),
            UserAppsEvent::LoginSuccess { .. } => "login".to_string(),
            UserAppsEvent::LoginExpired => "expired".to_string(),
            UserAppsEvent::Apps(apps) => format!("{} apps", apps.len()),
            UserAppsEvent::Error(message) => message,
            _ => panic!("not a report"),
        });
        if after_report(is_answer, true) == ListNext::KillAndAwaitExit {
            return told;
        }
    }
    told.push("exited".to_string());
    told
}

#[test]
fn listings_end_in_their_first_answer() {
    let log = || Event::Log { level: LogLevel::Info, message: "x".to_string() };
    let login = || Event::LoginSuccess { username: None };
    let apps = || Event::UserApps { apps: vec![], count: 0 };
    let error = || Event::Error { message: "no".to_string() };
    assert_eq!(listed(vec![]), vec!["exited"]);
    assert_eq!(listed(vec![log(), login(), log()]), vec!["login", "exited"]);
    assert_eq!(
        listed(vec![Event::Qr { url: "u".to_string() }, login(), apps(), error()]),
        vec!["prompt", "login", "0 apps"]
    );
    assert_eq!(listed(vec![error(), apps()]), vec!["no"]);
}

fn told(samples: &[(Sample, bool, bool)]) -> Vec<&'static str> {
    let mut told = Vec::new();
    for (sample, expired, sent) in samples {
        let step = after_sample(*sample, *expired);
        if step.send_stats && *sent {
            told.push("stats");
        }
        match after_sending(step, *sent) {
            Next::Leave => return told,
            Next::AwaitExit { .. } => {
                told.push("exit");
                return told;
            }
            Next::Continue => {}
        }
    }
    told
}

#[test]
fn downloads_tell_snapshots_and_then_one_exit() {
    let line = Sample::Line { is_event: true };
    let noise = Sample::Line { is_event: false };
    let closed = Sample::LineChannelClosed;
    assert_eq!(
        told(&[(line, false, true), (noise, false, true), (closed, false, true), (line, false, true)]),
        vec!["stats", "exit"]
    );
    assert_eq!(told(&[(line, false, true), (line, true, true)]), vec!["stats", "stats", "exit"]);
    assert_eq!(told(&[(line, false, true), (line, false, false)]), vec!["stats"]);
    assert_eq!(told(&[(noise, false, true), (Sample::CancelRequested, false, true)]), vec!["exit"]);
}

