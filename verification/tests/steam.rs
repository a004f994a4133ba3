use std::collections::HashMap;
use std::path::{Path, PathBuf};

use depot_downloader_gpui::json::{parse_json, Json};
use depot_downloader_gpui::paths::{path_under, split_last, Os, PathStyle};
use depot_downloader_gpui::steam::app_id::parse_app_id;
use depot_downloader_gpui::steam::app_info::{
    app_info_url, extract_depot_manifests, extract_install_dir_name, fetch_app_info, AppInfo,
    DepotManifest,
};
use depot_downloader_gpui::steam::app_manifest::{
    escape, is_steam_library_common_dir, manifest_file_name, render_manifest, steamapps_dir,
    write_field,
};
use depot_downloader_gpui::steam::dlc::{
    app_details_url, extract_dlc_app_ids, extract_name, fetch_app_name, fetch_dlc_app_ids,
};
use depot_downloader_gpui::steam::library_path::{
    candidate_dirs, candidate_dirs_from, default_download_dir_for_app, default_steam_common_dir,
};
use depot_downloader_gpui::steam::logo::logo_url;

fn text(value: &str) -> Json {
    Json::Text(value.to_string())
}

fn object(entries: Vec<(&str, Json)>) -> Json {
    Json::Object(entries.into_iter().map(|(key, value)| (key.to_string(), value)).collect())
}

#[test]
fn keeps_plain_digits() {
    assert_eq!(parse_app_id("620"), "620");
}

#[test]
fn extracts_id_from_store_url_with_slug() {
    assert_eq!(parse_app_id("https://store.steampowered.com/app/393380/Squad/"), "393380");
}

#[test]
fn extracts_id_from_store_url_without_slug_or_with_query() {
    assert_eq!(parse_app_id("store.steampowered.com/app/440"), "440");
    assert_eq!(parse_app_id("https://x.com/app/440/?l=english"), "440");
}

#[test]
fn strips_non_digits() {
    assert_eq!(parse_app_id("abc123"), "123");
    assert_eq!(parse_app_id(""), "");
}

#[test]
fn reading_an_app_id_again_changes_nothing() {
    for typed in ["a1/app/2x3/app/4", "12 34", "/app/", "/app/x7"] {
        let id = parse_app_id(typed);
        assert!(id.chars().all(|c| c.is_ascii_digit()));
        assert_eq!(parse_app_id(&id), id);
    }
    assert_eq!(parse_app_id("a1/app/2x3/app/4"), "2");
    assert_eq!(parse_app_id("/app/x7"), "");
}

#[test]
fn extracts_a_safe_install_dir_name() {
    let app = object(vec![("config", object(vec![("installdir", text("Team Fortress 2"))]))]);
    assert_eq!(extract_install_dir_name(&app).as_deref(), Some("Team Fortress 2"));
}

#[test]
fn rejects_missing_or_unsafe_install_dir_names() {
    assert_eq!(extract_install_dir_name(&object(vec![])), None);
    for unsafe_name in ["", "..", "a/b", "a\\b", "C:"] {
        let app = object(vec![("config", object(vec![("installdir", text(unsafe_name))]))]);
        assert_eq!(extract_install_dir_name(&app), None);
    }
}

#[test]
fn trims_install_dir_names() {
    for (name, expected) in [("  Squad ", Some("Squad")), (" . ", None), ("...", Some("..."))] {
        let app = object(vec![("config", object(vec![("installdir", text(name))]))]);
        assert_eq!(extract_install_dir_name(&app).as_deref(), expected);
    }
}

#[test]
fn extracts_depot_manifests_and_skips_incomplete_entries() {
    let app = object(vec![(
        "depots",
        object(vec![
            (
                "228990",
                object(vec![(
                    "manifests",
                    object(vec![(
                        "public",
                        object(vec![("gid", text("123")), ("size", text("456"))]),
                    )]),
                )]),
            ),
            ("branches", object(vec![("public", object(vec![("buildid", text("789"))]))])),
            ("no_manifest", object(vec![("config", object(vec![("oslist", text("macos"))]))])),
        ]),
    )]);
    let manifests = extract_depot_manifests(&app);
    assert_eq!(manifests.len(), 1);
    let manifest = &manifests[&228990];
    assert_eq!(manifest.gid, "123");
    assert_eq!(manifest.size, 456);
}

#[test]
fn reads_app_info_from_an_answer() {
    let body = r#"{"data":{"440":{
        "common":{"name":"Team Fortress 2"},
        "config":{"installdir":"Team Fortress 2"},
        "depots":{"441":{"manifests":{"public":{"gid":"7","size":"8"}}},
                  "442":{"manifests":{"public":{"gid":7,"size":"8"}}},
                  "branches":{"public":{"buildid":"99"}}}}}}"#;
    let info = fetch_app_info("440", Some(body));
    assert_eq!(info.install_dir_name, "Team Fortress 2");
    assert_eq!(info.display_name.as_deref(), Some("Team Fortress 2"));
    assert_eq!(info.buildid.as_deref(), Some("99"));
    assert_eq!(info.depot_manifests.len(), 1);
    assert_eq!(info.depot_manifests[&441].gid, "7");
    assert_eq!(info.depot_manifests[&441].size, 8);
}

#[test]
fn failed_lookups_fall_back_to_the_app_id() {
    for body in [None, Some("no json"), Some("[]"), Some("{\"data\":{}}")] {
        let info = fetch_app_info("440", body);
        assert_eq!(info.install_dir_name, "440");
        assert_eq!(info.display_name, None);
        assert_eq!(info.buildid, None);
        assert!(info.depot_manifests.is_empty());
    }
    assert_eq!(app_info_url("440"), "https://api.steamcmd.net/v1/info/440");
}

#[test]
fn recognizes_a_steamapps_common_folder_case_insensitively() {
    assert!(is_steam_library_common_dir(r"D:\SteamLibrary\steamapps\common"));
    assert!(is_steam_library_common_dir("/home/user/.steam/steam/STEAMAPPS/Common"));
    assert!(!is_steam_library_common_dir(r"D:\Games\MyGame"));
    assert!(!is_steam_library_common_dir(r"D:\SteamLibrary\steamapps\common\Squad"));
}

#[test]
fn library_folders_are_taken_apart_like_paths() {
    for path in ["/a/steamapps/common/", "/a/steamapps/./common", "steamapps//common/.", "common"] {
        let path_buf = PathBuf::from(path);
        let mut components = path_buf.components().rev();
        let name = |part: Option<std::path::Component>| {
            part.map(|part| part.as_os_str().to_string_lossy().into_owned())
        };
        let expected = name(components.next()).as_deref() == Some("common")
            && name(components.next()).as_deref() == Some("steamapps");
        assert_eq!(is_steam_library_common_dir(path), expected, "{path}");
        if expected {
            assert_eq!(PathBuf::from(steamapps_dir(path)), path_buf.parent().unwrap());
        }
    }
    assert_eq!(steamapps_dir(r"D:\SteamLibrary\steamapps\common"), r"D:\SteamLibrary\steamapps");
    // A drive is no part of the folder after it.
    assert!(is_steam_library_common_dir(r"C:steamapps\common"));
    assert!(!is_steam_library_common_dir(r"CC:steamapps\common"));
    assert_eq!(steamapps_dir(r"C:steamapps\common"), "C:steamapps");
}

#[test]
fn last_components_are_file_names() {
    for path in ["a/b", "/a/b/", "b", "a\\b", "a/./b/.", "/"] {
        let split = split_last(path, PathStyle::Unix);
        let expected = Path::new(path).file_name().map(|name| name.to_str().unwrap()).unwrap_or("");
        assert_eq!(split.name, expected, "{path}");
    }
    assert_eq!(split_last("a\\b", PathStyle::Windows).name, "b");
}

#[test]
fn prefixes_of_windows_are_no_components() {
    for (path, parent, name) in [
        (r"C:\a\b", r"C:\a", "b"),
        (r"C:b", "C:", "b"),
        (r"C:\", "C:", ""),
        (r"\\server\share\a", r"\\server\share", "a"),
        (r"\\server\share", r"\\server\share", ""),
        (r"//server/share/a/.", "//server/share", "a"),
        (r"\\server", "", "server"),
        (r"\\.\COM1\a", r"\\.\COM1", "a"),
        (r"\\?\C:\a\b", r"\\?\C:\a", "b"),
        (r"\\?\C:\a/b", r"\\?\C:", "a/b"),
        (r"\\?\C:\a\.", r"\\?\C:\a", "."),
        (r"\\?\name\a", r"\\?\name", "a"),
        (r"\\?\UNC\server\share\a", r"\\?\UNC\server\share", "a"),
        (r"\\?\UNC\server\share", r"\\?\UNC\server\share", ""),
    ] {
        let split = split_last(path, PathStyle::Windows);
        assert_eq!((split.parent.as_str(), split.name.as_str()), (parent, name), "{path}");
    }
    assert!(!is_steam_library_common_dir(r"\\steamapps\common"));
    assert!(!is_steam_library_common_dir(r"\\?\steamapps\common"));
    assert!(!is_steam_library_common_dir(r"\\server\steamapps\common"));
    assert!(is_steam_library_common_dir(r"\\server\share\steamapps\common"));
    assert!(is_steam_library_common_dir(r"\\?\D:\steamapps\common"));
    assert_eq!(steamapps_dir(r"\\server\share\steamapps\common"), r"\\server\share\steamapps");
    // By slashes alone, two of them are one.
    assert!(is_steam_library_common_dir("//steamapps/common"));
    assert_eq!(steamapps_dir("//steamapps/common"), "//steamapps");
}

#[test]
fn renders_installed_depots_only_for_known_manifests() {
    let mut depot_manifests = HashMap::new();
    depot_manifests.insert(393_381, DepotManifest { gid: "123".to_string(), size: 456 });
    let app_info = AppInfo {
        install_dir_name: "Squad".to_string(),
        display_name: Some("Squad".to_string()),
        buildid: Some("789".to_string()),
        depot_manifests,
    };
    let manifest = render_manifest("393380", &app_info, 1_000, &vec![393_381, 393_382], 0);
    assert!(manifest.contains("\"appid\"\t\t\"393380\""));
    assert!(manifest.contains("\"393381\""));
    assert!(!manifest.contains("\"393382\""));
    assert!(manifest.contains("\"manifest\"\t\t\"123\""));
}

#[test]
fn renders_a_whole_manifest() {
    let mut depot_manifests = HashMap::new();
    depot_manifests.insert(2, DepotManifest { gid: "g".to_string(), size: 3 });
    let app_info = AppInfo {
        install_dir_name: "My \"Game\"".to_string(),
        display_name: None,
        buildid: None,
        depot_manifests,
    };
    let expected = "\"AppState\"\n{\n\t\"appid\"\t\t\"1\"\n\t\"Universe\"\t\t\"1\"\n\t\"name\"\t\t\"1\"\n\t\"StateFlags\"\t\t\"4\"\n\t\"installdir\"\t\t\"My \\\"Game\\\"\"\n\t\"LastUpdated\"\t\t\"55\"\n\t\"SizeOnDisk\"\t\t\"99\"\n\t\"StagingSize\"\t\t\"0\"\n\t\"buildid\"\t\t\"0\"\n\t\"LastOwner\"\t\t\"0\"\n\t\"BytesToDownload\"\t\t\"0\"\n\t\"BytesDownloaded\"\t\t\"0\"\n\t\"BytesStaged\"\t\t\"0\"\n\t\"TargetBuildID\"\t\t\"0\"\n\t\"AutoUpdateBehavior\"\t\t\"0\"\n\t\"AllowOtherDownloadsWhileRunning\"\t\t\"0\"\n\t\"ScheduledAutoUpdate\"\t\t\"0\"\n\t\"InstalledDepots\"\n\t{\n\t\t\"2\"\n\t\t{\n\t\t\t\"manifest\"\t\t\"g\"\n\t\t\t\"size\"\t\t\"3\"\n\t\t}\n\t}\n}\n";
    assert_eq!(render_manifest("1", &app_info, 99, &vec![9, 2], 55), expected);
    assert_eq!(manifest_file_name("440"), "appmanifest_440.acf");
}

#[test]
fn escapes_backslashes_and_quotes() {
    assert_eq!(escape(r#"a\"b"#), r#"a\\\"b"#);
    assert_eq!(escape("plain"), "plain");
    for value in ["\\", "\"", "\\\\\"\"x\\"] {
        assert_eq!(escape(value), value.replace('\\', "\\\\").replace('"', "\\\""));
    }
    let mut out = String::from("x");
    write_field(&mut out, 2, "key", "a\\b");
    assert_eq!(out, "x\t\t\"key\"\t\t\"a\\\\b\"\n");
}

#[test]
fn reads_dlc_ids_from_a_successful_response() {
    let response = object(vec![(
        "393380",
        object(vec![
            ("success", Json::Bool(true)),
            (
                "data",
                object(vec![(
                    "dlc",
                    Json::Array(vec![
                        Json::Number(Some(393_381)),
                        Json::Number(Some(393_382)),
                    ]),
                )]),
            ),
        ]),
    )]);
    assert_eq!(extract_dlc_app_ids(&response, 393_380), vec![393_381, 393_382]);
}

#[test]
fn returns_empty_when_unsuccessful_or_missing_dlc() {
    let response = object(vec![("393380", object(vec![("success", Json::Bool(false))]))]);
    assert!(extract_dlc_app_ids(&response, 393_380).is_empty());

    let response = object(vec![(
        "393380",
        object(vec![("success", Json::Bool(true)), ("data", object(vec![]))]),
    )]);
    assert!(extract_dlc_app_ids(&response, 393_380).is_empty());
}

#[test]
fn reads_name_from_a_successful_response() {
    let response = object(vec![(
        "393381",
        object(vec![
            ("success", Json::Bool(true)),
            ("data", object(vec![("name", text("Squad DLC"))])),
        ]),
    )]);
    assert_eq!(extract_name(&response, 393_381).as_deref(), Some("Squad DLC"));
}

#[test]
fn returns_no_name_when_unsuccessful_or_missing() {
    let response = object(vec![("393381", object(vec![("success", Json::Bool(false))]))]);
    assert_eq!(extract_name(&response, 393_381), None);

    let response = object(vec![(
        "393381",
        object(vec![("success", Json::Bool(true)), ("data", object(vec![]))]),
    )]);
    assert_eq!(extract_name(&response, 393_381), None);
}

#[test]
fn reads_store_answers() {
    let body = r#"{"7":{"success":true,"data":{"name":"Seven","dlc":[8,-1,"9",10.5,11]}}}"#;
    assert_eq!(fetch_dlc_app_ids(7, Some(body)), vec![8, 11]);
    assert_eq!(fetch_app_name(7, Some(body)).as_deref(), Some("Seven"));
    assert!(fetch_dlc_app_ids(8, Some(body)).is_empty());
    assert!(fetch_dlc_app_ids(7, None).is_empty());
    assert_eq!(fetch_app_name(7, Some("{")), None);
    assert_eq!(fetch_app_name(7, None), None);
    assert_eq!(
        app_details_url(7),
        "https://store.steampowered.com/api/appdetails?appids=7&filters=basic"
    );
}

#[test]
fn json_texts_become_plain_values() {
    let json = parse_json(r#"{"b":[null,true,5,-5,1.5],"a":"x"}"#).unwrap();
    assert_eq!(json.at("a").as_text(), Some("x"));
    match json.at("b") {
        Json::Array(items) => {
            assert_eq!(items.len(), 5);
            assert!(matches!(items[0], Json::Null));
            assert_eq!(items[1].as_bool(), Some(true));
            assert_eq!(items[2].as_u64(), Some(5));
            assert_eq!(items[3].as_u64(), None);
            assert_eq!(items[4].as_u64(), None);
        }
        other => panic!("{other:?}"),
    }
    assert!(matches!(json.at("c"), Json::Null));
    assert!(matches!(json.at("a").at("b"), Json::Null));
    assert!(parse_json("{\"a\":}").is_none());
}

#[test]
fn app_dir_is_a_subfolder_of_the_common_dir() {
    let candidates = candidate_dirs(Os::Linux, &None);
    let is_dir = candidates.iter().map(|dir| Path::new(dir).is_dir()).collect::<Vec<_>>();
    if let Some(common) = default_steam_common_dir(&candidates, &is_dir) {
        let app_dir = default_download_dir_for_app("440", &Some(common.clone())).unwrap();
        assert_eq!(PathBuf::from(app_dir), PathBuf::from(common).join("440"));
    }
}

#[test]
fn default_download_dirs_lie_in_the_library() {
    let common = Some("/home/user/steamapps/common".to_string());
    assert_eq!(
        default_download_dir_for_app("440", &common).as_deref(),
        Some("/home/user/steamapps/common/440")
    );
    assert_eq!(default_download_dir_for_app("440", &None), None);
    for odd in ["a/b", "..", ".", "/abs", "C:x", "\\x"] {
        assert_eq!(
            PathBuf::from(default_download_dir_for_app(odd, &common).unwrap()),
            Path::new("/home/user/steamapps/common").join(odd),
            "{odd}"
        );
    }
}

#[test]
fn the_first_existing_library_is_the_default() {
    let dirs = candidate_dirs_from(Os::Linux, &Some("/home/u".to_string()), &None);
    assert_eq!(
        dirs,
        vec![
            "/home/u/.local/share/Steam/steamapps/common",
            "/home/u/.steam/steam/steamapps/common",
            "/home/u/.var/app/com.valvesoftware.Steam/data/Steam/steamapps/common",
        ]
    );
    assert_eq!(
        default_steam_common_dir(&dirs, &vec![false, true, true]).as_deref(),
        Some("/home/u/.steam/steam/steamapps/common")
    );
    assert_eq!(default_steam_common_dir(&dirs, &vec![false, false, false]), None);
    assert!(candidate_dirs_from(Os::MacOs, &None, &None).is_empty());
    assert_eq!(
        candidate_dirs_from(Os::MacOs, &Some("/Users/u".to_string()), &None),
        vec!["/Users/u/Library/Application Support/Steam/steamapps/common"]
    );
    assert_eq!(
        candidate_dirs_from(Os::Windows, &None, &None),
        vec![r"C:\Program Files (x86)\Steam\steamapps\common"]
    );
    assert_eq!(
        candidate_dirs_from(Os::Windows, &None, &Some("D:\\P\\".to_string())),
        vec![r"D:\P\Steam\steamapps\common"]
    );
    assert_eq!(path_under(Os::Linux, "/", "a"), "/a");
    // A bare drive is followed by no separator, as it names a place of its own.
    assert_eq!(
        candidate_dirs_from(Os::Windows, &None, &Some("D:".to_string())),
        vec![r"D:Steam\steamapps\common"]
    );
    let anew = candidate_dirs_from(Os::Windows, &None, &Some(r"\\?\D:\P".to_string()));
    assert!(anew[0].starts_with(r"\\?\D:\P") && anew[0].ends_with("common"));
    assert_eq!(path_under(Os::Linux, "D:", "a"), "D:/a");
    assert_eq!(path_under(Os::Windows, "DD:", "a"), r"DD:\a");
}

#[test]
fn logos_have_addresses() {
    assert_eq!(
        logo_url(440),
        "https://cdn.akamai.steamstatic.com/steam/apps/440/capsule_184x69.jpg"
    );
}
