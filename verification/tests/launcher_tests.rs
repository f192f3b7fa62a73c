use minetui::config::{AuthData, AuthType};
use minetui::launcher::{
    classpath_text, debug_command_line, dedup_entries, launch_arguments, launch_steps,
    native_entry_skipped, LaunchStep,
};
use minetui::versions::{DownloadArtifact, Library, LibraryDownloads};

fn art(path: Option<&str>) -> DownloadArtifact {
    DownloadArtifact { sha1: String::new(), size: 0, url: String::new(), path: path.map(|p| p.to_string()) }
}

#[test]
fn steps_for_library_with_downloads() {
    let lib = Library {
        name: "org.lwjgl:lwjgl:3.2.2".into(),
        downloads: Some(LibraryDownloads {
            artifact: Some(art(Some("org/lwjgl/lwjgl.jar"))),
            classifiers: Some(vec![
                ("natives-windows".into(), art(Some("win.jar"))),
                ("natives-linux".into(), art(Some("linux.jar"))),
            ]),
        }),
    };
    let steps = launch_steps(&lib);
    assert_eq!(steps.len(), 2);
    assert!(matches!(&steps[0], LaunchStep::Classpath { path, warn_if_missing: true } if path == "org/lwjgl/lwjgl.jar"));
    assert!(matches!(&steps[1], LaunchStep::Native { path } if path == "linux.jar"));
}

#[test]
fn steps_for_maven_libraries() {
    let plain = Library { name: "net.fabricmc:fabric-loader:0.15.0".into(), downloads: None };
    let steps = launch_steps(&plain);
    assert_eq!(steps.len(), 2);
    assert!(matches!(&steps[0], LaunchStep::Classpath { path, warn_if_missing: false }
        if path == "net/fabricmc/fabric-loader/0.15.0/fabric-loader-0.15.0.jar"));
    assert!(matches!(&steps[1], LaunchStep::Native { path }
        if path == "net/fabricmc/fabric-loader/0.15.0/fabric-loader-0.15.0-natives-linux.jar"));
    let natives = Library { name: "org.lwjgl:lwjgl:3.3.3:natives-linux".into(), downloads: None };
    let steps = launch_steps(&natives);
    assert_eq!(steps.len(), 1);
    assert!(matches!(&steps[0], LaunchStep::Native { .. }));
    let short = Library { name: "a:b".into(), downloads: None };
    assert!(launch_steps(&short).is_empty());
}

#[test]
fn native_entries() {
    assert!(native_entry_skipped(true, "dir/"));
    assert!(native_entry_skipped(false, "META-INF/MANIFEST.MF"));
    assert!(!native_entry_skipped(false, "liblwjgl.so"));
}

#[test]
fn classpath_without_repetitions() {
    let entries: Vec<String> = ["a.jar", "b.jar", "a.jar", "c.jar", "b.jar"].iter().map(|s| s.to_string()).collect();
    assert_eq!(dedup_entries(entries.clone()), vec!["a.jar".to_string(), "b.jar".into(), "c.jar".into()]);
    assert_eq!(classpath_text(entries), "a.jar:b.jar:c.jar");
    assert_eq!(classpath_text(Vec::new()), "");
}

fn auth(t: AuthType) -> AuthData {
    AuthData { auth_type: t, username: "Alex".into(), uuid: "U".into(), access_token: "T".into(), refresh_token: None }
}

#[test]
fn offline_launch_arguments() {
    let args = launch_arguments(4096, "/i/natives", "", "a.jar:b.jar", "Main", "1.20.1", "/i", "/d/assets", "5", &auth(AuthType::Offline));
    let expected: Vec<&str> = vec![
        "-Xmx4096M", "-Djava.library.path=/i/natives", "-cp", "a.jar:b.jar", "Main", "--version", "1.20.1",
        "--gameDir", "/i", "--assetsDir", "/d/assets", "--assetIndex", "5", "--uuid", "U", "--accessToken", "T",
        "--userType", "msa", "--versionType", "release", "--username", "Alex",
    ];
    assert_eq!(args, expected);
}

#[test]
fn ely_by_launch_uses_authlib_injector() {
    let args = launch_arguments(2048, "/n", "/lib/authlib-injector.jar", "cp", "Main", "v", "/g", "/a", "i", &auth(AuthType::ElyBy));
    assert_eq!(args[0], "-Xmx2048M");
    assert_eq!(args[2], "-javaagent:/lib/authlib-injector.jar=https://authlib.ely.by");
    assert_eq!(&args[3..7], &["--add-opens", "java.base/java.net=ALL-UNNAMED", "--add-exports", "java.base/sun.security.util=ALL-UNNAMED"]);
    assert_eq!(args[7], "-cp");
    assert_eq!(args.len(), 28);
}

#[test]
fn debug_line() {
    let args = vec!["-Xmx1M".to_string(), "-cp".to_string()];
    assert_eq!(debug_command_line("java", &args), "Command: java -Xmx1M -cp");
}
