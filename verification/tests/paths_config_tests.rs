use minetui::config::{config_or_default, AuthData, AuthType, Config};
use minetui::paths::{
    config_path_in, data_dir_or_default, get_config_path, get_instances_dir, instance_dir_in,
    instances_dir_in, instances_file_in, join_path, libraries_dir_in,
};

#[test]
fn path_joining() {
    assert_eq!(join_path("/home/a/.local/share/mine-tui", "config.json"), "/home/a/.local/share/mine-tui/config.json");
    assert_eq!(join_path("dir/", "x"), "dir/x");
    assert_eq!(join_path("", "x"), "x");
    assert_eq!(join_path("dir", "/abs"), "/abs");
    for (a, b) in [("/home/a", "config.json"), ("dir/", "x"), ("", "x"), ("dir", "/abs"), ("a", "b/c")] {
        let expected = std::path::Path::new(a).join(b).to_string_lossy().into_owned();
        assert_eq!(join_path(a, b), expected);
    }
}

#[test]
fn data_layout() {
    assert_eq!(data_dir_or_default(None), "mine-tui-data");
    assert_eq!(data_dir_or_default(Some("/data".to_string())), "/data/mine-tui");
    assert_eq!(data_dir_or_default(Some("/data/".to_string())), "/data/mine-tui");
    assert_eq!(config_path_in("/data"), "/data/config.json");
    assert_eq!(instances_dir_in("/data"), "/data/instances");
    assert_eq!(instances_file_in("/data"), "/data/instances.json");
    assert_eq!(instance_dir_in("/data", "Pack_1"), "/data/instances/Pack_1");
    assert_eq!(libraries_dir_in("/data"), "/data/libraries");
}

#[test]
fn launcher_paths_end_with_their_file() {
    assert!(get_config_path().ends_with("config.json"));
    assert!(get_instances_dir().ends_with("instances"));
}

#[test]
fn default_account_and_config() {
    let a = AuthData::default();
    assert_eq!(a.auth_type, AuthType::Offline);
    assert_eq!(a.username, "Steve");
    assert_eq!(a.uuid, "00000000-0000-0000-0000-000000000000");
    assert_eq!(a.access_token, "0");
    assert!(a.refresh_token.is_none());
    let c = Config::default();
    assert_eq!(c.java_path, "java");
    assert_eq!(c.max_memory, 4096);
    assert_eq!(c.auth.username, "Steve");
}

#[test]
fn loaded_config_or_default() {
    let mut c = Config::default();
    c.max_memory = 8192;
    assert_eq!(config_or_default(Some(c)).max_memory, 8192);
    assert_eq!(config_or_default(None).max_memory, 4096);
}
