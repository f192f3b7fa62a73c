use minetui::auth::{
    minecraft_login_reply, poll_step, xbl_reply, xsts_reply, xsts_status_error, PollStep, TokenResponse,
};
use minetui::control::{modpack_after_base, modpack_after_download, modpack_after_fabric, ApiResult, ModpackStep};
use minetui::installer::check_download;
use minetui::launcher::{all_launch_steps, launch_classpath, LaunchStep};
use minetui::versions::{DownloadArtifact, Library, LibraryDownloads};

fn pending(e: &str) -> TokenResponse {
    TokenResponse { access_token: String::new(), refresh_token: None, error: Some(e.to_string()) }
}

#[test]
fn polling_waits_while_the_code_is_pending() {
    assert!(matches!(poll_step(pending("authorization_pending"), 5, 0, 900), PollStep::PollAgain { after_secs: 5 }));
    assert!(matches!(poll_step(pending("slow_down"), 5, 10, 900), PollStep::PollAgain { after_secs: 10 }));
    assert!(matches!(poll_step(pending("authorization_pending"), 5, 896, 900), PollStep::Failed(e) if e == "authorization_pending"));
    assert!(matches!(poll_step(pending("access_denied"), 5, 0, 900), PollStep::Failed(e) if e == "access_denied"));
    let ok = TokenResponse { access_token: "ms".into(), refresh_token: Some("r".into()), error: None };
    assert!(matches!(poll_step(ok, 5, 0, 900), PollStep::SignedIn(t) if t == "ms"));
}

#[test]
fn modpack_steps() {
    assert!(matches!(modpack_after_download(Err("404".into())), ModpackStep::Finish(ApiResult::Error(m)) if m == "Modpack download failed: 404"));
    assert!(matches!(modpack_after_download(Ok(("1.20.1".into(), "0.15.0".into()))),
        ModpackStep::InstallBase { game_version, loader_version } if game_version == "1.20.1" && loader_version == "0.15.0"));
    assert!(matches!(modpack_after_base("P".into(), "P".into(), "1.20.1".into(), "0.15.0".into(), Ok(())),
        ModpackStep::InstallFabric { game_version, loader_version } if game_version == "1.20.1" && loader_version == "0.15.0"));
    match modpack_after_base("My Pack".into(), "My_Pack".into(), "1.20.1".into(), String::new(), Ok(())) {
        ModpackStep::Finish(ApiResult::InstallSuccess { name, id, version, memory, java, loader }) => {
            assert_eq!((name.as_str(), id.as_str(), version.as_str(), memory, java.as_str(), loader.as_str()),
                ("My Pack", "My_Pack", "1.20.1", 4096, "java", "Vanilla"));
        }
        _ => panic!("expected a finished vanilla install"),
    }
    assert!(matches!(modpack_after_base("P".into(), "P".into(), "1.20.1".into(), String::new(), Err("x".into())),
        ModpackStep::Finish(ApiResult::Error(m)) if m == "Base game install failed: x"));
    match modpack_after_fabric("My Pack".into(), "My_Pack".into(), "1.20.1".into(), Ok(())) {
        ModpackStep::Finish(ApiResult::InstallSuccess { memory, loader, .. }) => {
            assert_eq!(memory, 6144);
            assert_eq!(loader, "Fabric");
        }
        _ => panic!("expected a finished fabric install"),
    }
    assert!(matches!(modpack_after_fabric("P".into(), "P".into(), "1.20.1".into(), Err("y".into())),
        ModpackStep::Finish(ApiResult::Error(m)) if m == "Fabric install failed: y"));
}

#[test]
fn downloads_are_checked_by_size_and_sha1() {
    let sha = "a9993e364706816aba3e25717850c26c9cd0d89d";
    assert_eq!(check_download(b"abc", 3, sha), Ok(()));
    assert_eq!(check_download(b"abc", 0, sha), Ok(()));
    assert_eq!(check_download(b"abc", 4, sha), Err("Size mismatch".to_string()));
    assert_eq!(check_download(b"abd", 3, sha), Err("SHA1 mismatch".to_string()));
}

fn art(path: &str) -> DownloadArtifact {
    DownloadArtifact { sha1: String::new(), size: 0, url: String::new(), path: Some(path.to_string()) }
}

#[test]
fn classpath_keeps_order_filters_missing_and_puts_client_last() {
    let libs = vec![
        Library { name: "a:a:1".into(), downloads: Some(LibraryDownloads { artifact: Some(art("a.jar")), classifiers: None }) },
        Library { name: "b:b:1".into(), downloads: Some(LibraryDownloads { artifact: Some(art("b.jar")), classifiers: None }) },
        Library { name: "c:c:1".into(), downloads: Some(LibraryDownloads { artifact: Some(art("a.jar")), classifiers: None }) },
    ];
    let steps = all_launch_steps(&libs);
    assert_eq!(steps.len(), 3);
    assert!(matches!(&steps[1], LaunchStep::Classpath { path, .. } if path == "b.jar"));
    let present = vec![true, false, true];
    assert_eq!(launch_classpath("/libs", &steps, &present, Some("/inst/client.jar".into())), "/libs/a.jar:/inst/client.jar");
    assert_eq!(launch_classpath("/libs", &steps, &vec![false, true, false], None), "/libs/b.jar");
}

#[test]
fn xbox_replies() {
    assert_eq!(xbl_reply(None, Some("u".into())), Err("Failed to get XBL token".to_string()));
    assert_eq!(xbl_reply(Some("t".into()), None), Err("Failed to get UHS".to_string()));
    assert_eq!(xbl_reply(Some("t".into()), Some("u".into())), Ok(("t".to_string(), "u".to_string())));
    assert_eq!(xsts_status_error(401), Some("Xbox account does not exist or is not verified.".to_string()));
    assert_eq!(xsts_status_error(200), None);
    assert_eq!(xsts_reply(None), Err("Failed to get XSTS token".to_string()));
    assert_eq!(xsts_reply(Some("x".into())), Ok("x".to_string()));
    assert_eq!(minecraft_login_reply(None), Err("Failed to get MC token".to_string()));
    assert_eq!(minecraft_login_reply(Some("m".into())), Ok("m".to_string()));
}

