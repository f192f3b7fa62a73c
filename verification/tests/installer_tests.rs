use minetui::fabric::{fabric_profile_url, FabricProfile};
use minetui::installer::{
    apply_fabric_profile, asset_index_file_name, asset_object_location, authlib_injector_path_in,
    authlib_injector_sha1, authlib_injector_url, check_download_size, existing_file_is_intact,
    library_fetch, library_key, maven_download_urls, maven_natives_path, maven_needs_download,
    maven_path, merge_libraries, sized_file_needs_download, LibraryFetch,
};
use minetui::versions::{
    AssetIndex, DownloadArtifact, Library, LibraryDownloads, VersionDownloads, VersionMetadata,
};

fn artifact(path: &str) -> DownloadArtifact {
    DownloadArtifact {
        sha1: "00".into(),
        size: 1,
        url: format!("https://libraries.minecraft.net/{path}"),
        path: Some(path.into()),
    }
}

fn lib(name: &str, with_downloads: bool) -> Library {
    Library {
        name: name.into(),
        downloads: if with_downloads {
            Some(LibraryDownloads { artifact: Some(artifact("x.jar")), classifiers: None })
        } else {
            None
        },
    }
}

#[test]
fn library_keys() {
    assert_eq!(library_key("org.ow2.asm:asm:9.6"), "org.ow2.asm:asm");
    assert_eq!(library_key("org.lwjgl:lwjgl:3.3.3:natives-linux"), "org.lwjgl:lwjgl:natives-linux");
    assert_eq!(library_key("a:b"), "a:b");
    assert_eq!(library_key("plain"), "plain");
}

#[test]
fn fabric_replaces_libraries_by_key() {
    let vanilla = vec![lib("org.ow2.asm:asm:9.3", true), lib("com.google:gson:2.10", true)];
    let fabric = vec![lib("org.ow2.asm:asm:9.6", false), lib("net.fabricmc:fabric-loader:0.15.0", false)];
    let merged = merge_libraries(vanilla, fabric);
    assert_eq!(merged.len(), 3);
    let replaced = merged.iter().find(|l| l.name.starts_with("org.ow2.asm:asm")).unwrap();
    assert_eq!(replaced.name, "org.ow2.asm:asm:9.6");
    assert!(replaced.downloads.is_none());
    assert!(merged.iter().any(|l| l.name == "com.google:gson:2.10"));
    assert!(merged.iter().any(|l| l.name == "net.fabricmc:fabric-loader:0.15.0"));
}

#[test]
fn same_library_keeps_vanilla_downloads() {
    let vanilla = vec![lib("org.ow2.asm:asm:9.6", true)];
    let fabric = vec![lib("org.ow2.asm:asm:9.6", false)];
    let merged = merge_libraries(vanilla, fabric);
    assert_eq!(merged.len(), 1);
    assert_eq!(merged[0].name, "org.ow2.asm:asm:9.6");
    assert_eq!(merged[0].downloads.as_ref().unwrap().artifact.as_ref().unwrap().path.as_deref(), Some("x.jar"));
}

#[test]
fn natives_with_classifier_do_not_replace_code_jar() {
    let vanilla = vec![lib("org.lwjgl:lwjgl:3.3.3", true), lib("org.lwjgl:lwjgl:3.3.3:natives-linux", true)];
    let merged = merge_libraries(vanilla, Vec::new());
    assert_eq!(merged.len(), 2);
}

#[test]
fn later_duplicate_in_version_wins() {
    let vanilla = vec![lib("a:b:1", true), lib("a:b:2", true)];
    let merged = merge_libraries(vanilla, Vec::new());
    assert_eq!(merged.len(), 1);
    assert_eq!(merged[0].name, "a:b:2");
}

#[test]
fn fabric_profile_applied() {
    let metadata = VersionMetadata {
        id: "1.20.1".into(),
        libraries: vec![lib("a:b:1", true)],
        main_class: "net.minecraft.client.main.Main".into(),
        downloads: VersionDownloads { client: artifact("client.jar") },
        asset_index: AssetIndex { id: "5".into(), sha1: "s".into(), size: 1, total_size: 2, url: "u".into() },
    };
    let profile = FabricProfile {
        id: "fabric-loader-0.15.0-1.20.1".into(),
        inherits_from: "1.20.1".into(),
        main_class: "net.fabricmc.loader.impl.launch.knot.KnotClient".into(),
        libraries: vec![lib("net.fabricmc:fabric-loader:0.15.0", false)],
    };
    let m = apply_fabric_profile(metadata, profile, "1.20.1", "0.15.0");
    assert_eq!(m.id, "1.20.1-fabric-0.15.0");
    assert_eq!(m.main_class, "net.fabricmc.loader.impl.launch.knot.KnotClient");
    assert_eq!(m.libraries.len(), 2);
    assert_eq!(m.asset_index.id, "5");
}

#[test]
fn maven_paths() {
    assert_eq!(maven_path("net.fabricmc:fabric-loader:0.15.0").as_deref(),
        Some("net/fabricmc/fabric-loader/0.15.0/fabric-loader-0.15.0.jar"));
    assert_eq!(maven_path("org.lwjgl:lwjgl:3.3.3:natives-linux").as_deref(),
        Some("org/lwjgl/lwjgl/3.3.3/lwjgl-3.3.3-natives-linux.jar"));
    assert_eq!(maven_path("a:b"), None);
    assert_eq!(maven_natives_path("org.lwjgl:lwjgl:3.3.3").as_deref(),
        Some("org/lwjgl/lwjgl/3.3.3/lwjgl-3.3.3-natives-linux.jar"));
    assert_eq!(maven_natives_path("org.lwjgl:lwjgl:3.3.3:natives-linux"), None);
}

#[test]
fn maven_repositories_in_order() {
    let urls = maven_download_urls("a/b/1/b-1.jar");
    assert_eq!(urls, vec![
        "https://maven.fabricmc.net/a/b/1/b-1.jar".to_string(),
        "https://libraries.minecraft.net/a/b/1/b-1.jar".to_string(),
        "https://repo1.maven.org/maven2/a/b/1/b-1.jar".to_string(),
    ]);
    assert!(maven_needs_download(None));
    assert!(maven_needs_download(Some(0)));
    assert!(!maven_needs_download(Some(10)));
}

#[test]
fn library_fetch_plans() {
    match library_fetch(&lib("a:b:1", true)) {
        LibraryFetch::Verified { path, url, size, sha1 } => {
            assert_eq!(path, "x.jar");
            assert_eq!(url, "https://libraries.minecraft.net/x.jar");
            assert_eq!(size, 1);
            assert_eq!(sha1, "00");
        }
        other => panic!("{other:?}"),
    }
    match library_fetch(&lib("net.fabricmc:intermediary:1.20.1", false)) {
        LibraryFetch::Maven { path, urls } => {
            assert_eq!(path, "net/fabricmc/intermediary/1.20.1/intermediary-1.20.1.jar");
            assert_eq!(urls.len(), 3);
        }
        other => panic!("{other:?}"),
    }
    assert!(matches!(library_fetch(&lib("short", false)), LibraryFetch::Skip));
}

#[test]
fn file_integrity() {
    let data = b"hello world";
    assert!(existing_file_is_intact(data, 11, "2aae6c35c94fcfb415dbe95f408b9ce91ee846ed"));
    assert!(!existing_file_is_intact(data, 12, "2aae6c35c94fcfb415dbe95f408b9ce91ee846ed"));
    assert!(!existing_file_is_intact(data, 11, "2AAE6C35C94FCFB415DBE95F408B9CE91EE846ED"));
    assert!(!existing_file_is_intact(b"hello", 5, "2aae6c35c94fcfb415dbe95f408b9ce91ee846ed"));
}

#[test]
fn download_size_checks() {
    assert_eq!(check_download_size(10, 10), Ok(()));
    assert_eq!(check_download_size(10, 0), Ok(()));
    assert_eq!(check_download_size(9, 10), Err("Size mismatch".to_string()));
    assert!(sized_file_needs_download(None, 5));
    assert!(sized_file_needs_download(Some(4), 5));
    assert!(!sized_file_needs_download(Some(5), 5));
}

#[test]
fn asset_locations() {
    let (rel, url) = asset_object_location("bdf48ef6b5d0d23bbb02e17d04865216179f510a");
    assert_eq!(rel, "bd/bdf48ef6b5d0d23bbb02e17d04865216179f510a");
    assert_eq!(url, "https://resources.download.minecraft.net/bd/bdf48ef6b5d0d23bbb02e17d04865216179f510a");
    assert_eq!(asset_index_file_name("5"), "5.json");
}

#[test]
fn authlib_location() {
    assert_eq!(authlib_injector_path_in("/data/libraries"), "/data/libraries/authlib-injector.jar");
    assert!(authlib_injector_url().ends_with("authlib-injector-1.2.5.jar"));
    assert_eq!(authlib_injector_sha1(), "4b95433462f51a623394928d5323793245818d07");
}

#[test]
fn fabric_url() {
    assert_eq!(fabric_profile_url("1.20.1", "0.15.0"),
        "https://meta.fabricmc.net/v2/versions/loader/1.20.1/0.15.0/profile/json");
}
