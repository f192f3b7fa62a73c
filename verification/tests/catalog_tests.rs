use minetui::modpack::{client_unsupported, lookup_or_empty, modpack_game_and_loader, EnvSupport, ModpackFile, ModrinthIndex};
use minetui::modrinth::{first_mrpack_file, project_versions_url, search_url, user_agent, ProjectVersion, VersionFile};
use minetui::versions::{find_version_url, release_version_ids, version_manifest_url, LatestVersions, VersionInfo, VersionManifest};

fn info(id: &str, t: &str) -> VersionInfo {
    VersionInfo { id: id.into(), version_type: t.into(), url: format!("https://x/{id}.json"), time: String::new(), release_time: String::new() }
}

fn manifest() -> VersionManifest {
    VersionManifest {
        latest: LatestVersions { release: "1.20.1".into(), snapshot: "23w31a".into() },
        versions: vec![info("23w31a", "snapshot"), info("1.20.1", "release"), info("1.19.4", "release"), info("b1.7.3", "old_beta")],
    }
}

#[test]
fn release_ids_in_order() {
    assert_eq!(release_version_ids(&manifest()), vec!["1.20.1".to_string(), "1.19.4".into()]);
}

#[test]
fn finding_versions() {
    assert_eq!(find_version_url(&manifest(), "1.19.4"), Ok("https://x/1.19.4.json".to_string()));
    assert_eq!(find_version_url(&manifest(), "9.9"), Err("Version 9.9 not found in manifest".to_string()));
    assert_eq!(version_manifest_url(), "https://piston-meta.mojang.com/mc/game/version_manifest_v2.json");
}

fn index(deps: Vec<(&str, &str)>) -> ModrinthIndex {
    ModrinthIndex {
        formatVersion: 1,
        game: "minecraft".into(),
        versionId: "1".into(),
        name: "Pack".into(),
        summary: None,
        files: Vec::new(),
        dependencies: deps.into_iter().map(|(a, b)| (a.to_string(), b.to_string())).collect(),
    }
}

#[test]
fn modpack_dependencies() {
    let i = index(vec![("fabric-loader", "0.15.0"), ("minecraft", "1.20.1")]);
    assert_eq!(modpack_game_and_loader(&i), ("1.20.1".to_string(), "0.15.0".to_string()));
    let i = index(vec![("minecraft", "1.20.1")]);
    assert_eq!(modpack_game_and_loader(&i), ("1.20.1".to_string(), String::new()));
    assert_eq!(lookup_or_empty(&Vec::new(), "minecraft"), "");
}

fn file(env: Option<&str>) -> ModpackFile {
    ModpackFile {
        path: "mods/a.jar".into(),
        hashes: vec![("sha1".into(), "00".into())],
        env: env.map(|c| EnvSupport { client: c.into(), server: "required".into() }),
        downloads: vec!["https://cdn/a.jar".into()],
        fileSize: 3,
    }
}

#[test]
fn client_support() {
    assert!(client_unsupported(&file(Some("unsupported"))));
    assert!(!client_unsupported(&file(Some("required"))));
    assert!(!client_unsupported(&file(None)));
}

#[test]
fn modrinth_requests() {
    assert_eq!(search_url("fabulously"),
        "https://api.modrinth.com/v2/search?query=fabulously&facets=[[\"project_type:modpack\"]]&limit=20");
    assert_eq!(project_versions_url("fo"), "https://api.modrinth.com/v2/project/fo/version");
    assert_eq!(user_agent(), "mine-tui/0.1.0 (opencode-generated)");
}

#[test]
fn first_mrpack() {
    let vf = |n: &str| VersionFile { url: format!("https://cdn/{n}"), filename: n.into(), primary: false };
    let v = ProjectVersion {
        id: "x".into(), name: "x".into(), version_number: "1.0".into(),
        game_versions: vec![], loaders: vec![],
        files: vec![vf("readme.txt"), vf("a.mrpack"), vf("b.mrpack")],
    };
    assert_eq!(first_mrpack_file(&v), Some(1));
    let none = ProjectVersion { files: vec![vf("x.zip")], ..v };
    assert_eq!(first_mrpack_file(&none), None);
}
