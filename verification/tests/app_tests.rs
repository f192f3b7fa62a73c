use minetui::app::{App, AuthState, CurrentScreen, InputMode, NewInstanceField, SettingsField};
use minetui::config::{AuthType, Config};
use minetui::control::{handle_api_result, handle_key, Action, ApiResult, Key};
use minetui::instance::Instance;
use minetui::modrinth::{ProjectVersion, SearchResult, VersionFile};
use minetui::versions::{LatestVersions, VersionInfo, VersionManifest};

fn inst(name: &str, id: &str, mem: u32) -> Instance {
    Instance {
        name: name.into(),
        id: id.into(),
        version: "1.20.1".into(),
        loader: "Vanilla".into(),
        max_memory: mem,
        java_path: "java".into(),
        played_last: None,
    }
}

fn manifest() -> VersionManifest {
    let v = |id: &str, t: &str| VersionInfo { id: id.into(), version_type: t.into(), url: String::new(), time: String::new(), release_time: String::new() };
    VersionManifest {
        latest: LatestVersions { release: "1.20.1".into(), snapshot: "s".into() },
        versions: vec![v("1.20.1", "release"), v("s", "snapshot"), v("1.19.4", "release")],
    }
}

fn press(app: &mut App, keys: &[Key]) -> Vec<Action> {
    keys.iter().map(|k| handle_key(app, *k)).collect()
}

#[test]
fn fresh_app() {
    let app = App::default();
    assert!(app.running);
    assert_eq!(app.current_screen, CurrentScreen::Dashboard);
    assert_eq!(app.new_instance_memory, "4096");
    assert_eq!(app.new_instance_java, "java");
    assert!(matches!(app.auth_state, AuthState::LoggedOut));
    assert_eq!(app.instance_list_state.selected(), None);
}

#[test]
fn new_app_restores_login_and_selection() {
    let mut config = Config::default();
    config.auth.access_token = "tok".into();
    let app = App::new(vec![inst("A", "a", 4096)], config);
    assert!(matches!(&app.auth_state, AuthState::Success(n) if n == "Steve"));
    assert_eq!(app.instance_list_state.selected(), Some(0));
    let app = App::new(Vec::new(), Config::default());
    assert!(matches!(app.auth_state, AuthState::LoggedOut));
    assert_eq!(app.instance_list_state.selected(), None);
}

#[test]
fn tabs_cycle() {
    let mut app = App::default();
    let order = [CurrentScreen::Instances, CurrentScreen::ModpackSearch, CurrentScreen::Settings, CurrentScreen::Dashboard];
    for s in order {
        app.next_tab();
        assert_eq!(app.current_screen, s);
    }
    app.next_tab();
    assert_eq!(app.current_screen, CurrentScreen::Instances);
    app.previous_tab();
    assert_eq!(app.current_screen, CurrentScreen::Dashboard);
}

#[test]
fn quit_with_q_outside_text_fields() {
    let mut app = App::default();
    handle_key(&mut app, Key::Char('q'));
    assert!(!app.running);
}

#[test]
fn q_is_typed_in_settings() {
    let mut app = App::default();
    app.current_screen = CurrentScreen::Settings;
    app.settings_focus = SettingsField::Username;
    handle_key(&mut app, Key::Char('q'));
    assert!(app.running);
    assert_eq!(app.config.auth.username, "Steveq");
}

#[test]
fn instance_navigation_wraps() {
    let mut app = App::new(vec![inst("A", "a", 1), inst("B", "b", 2), inst("C", "c", 3)], Config::default());
    app.current_screen = CurrentScreen::Instances;
    press(&mut app, &[Key::Down, Key::Down, Key::Down]);
    assert_eq!(app.instance_list_state.selected(), Some(0));
    press(&mut app, &[Key::Up]);
    assert_eq!(app.instance_list_state.selected(), Some(2));
    press(&mut app, &[Key::Char('j'), Key::Char('k')]);
    assert_eq!(app.instance_list_state.selected(), Some(2));
}

#[test]
fn add_instance_replaces_same_id() {
    let mut app = App::new(vec![inst("A", "a", 1), inst("B", "b", 2)], Config::default());
    app.add_instance("A2".into(), "a".into(), "1.19.4".into(), 6144, "java".into(), "Fabric".into());
    assert_eq!(app.instances.len(), 2);
    assert_eq!(app.instances[0].id, "b");
    assert_eq!(app.instances[1].name, "A2");
    assert_eq!(app.instances.iter().filter(|i| i.id == "a").count(), 1);
    assert_eq!(app.instance_list_state.selected(), Some(1));
    assert_eq!(app.current_screen, CurrentScreen::Instances);
}

#[test]
fn delete_with_confirmation() {
    let mut app = App::new(vec![inst("A", "a", 1), inst("B", "b", 2)], Config::default());
    app.current_screen = CurrentScreen::Instances;
    press(&mut app, &[Key::Down]);
    let actions = press(&mut app, &[Key::Char('d')]);
    assert!(matches!(actions[0], Action::Nothing));
    assert!(app.confirm_delete);
    let actions = press(&mut app, &[Key::Enter]);
    assert!(matches!(actions[0], Action::SaveInstances));
    assert_eq!(app.instances.len(), 1);
    assert_eq!(app.instance_list_state.selected(), Some(0));
    press(&mut app, &[Key::Char('d'), Key::Esc]);
    assert!(!app.confirm_delete);
    assert_eq!(app.instances.len(), 1);
    press(&mut app, &[Key::Char('d'), Key::Enter]);
    assert!(app.instances.is_empty());
    assert_eq!(app.instance_list_state.selected(), None);
}

#[test]
fn edit_and_save_unchanged_keeps_instance() {
    let mut app = App::new(vec![inst("A", "a", 6144)], Config::default());
    app.current_screen = CurrentScreen::Instances;
    press(&mut app, &[Key::Char('e')]);
    assert_eq!(app.current_screen, CurrentScreen::NewInstance);
    assert_eq!(app.new_instance_memory, "6144");
    assert_eq!(app.editing_instance_index, Some(0));
    let actions = press(&mut app, &[Key::Enter]);
    assert!(matches!(actions[0], Action::SaveInstances));
    assert_eq!(app.instances[0].max_memory, 6144);
    assert_eq!(app.instances[0].name, "A");
    assert_eq!(app.current_screen, CurrentScreen::Instances);
}

#[test]
fn memory_field_takes_digits_only() {
    let mut app = App::default();
    app.open_new_instance();
    press(&mut app, &[Key::Tab]);
    assert_eq!(app.new_instance_focus, NewInstanceField::Memory);
    press(&mut app, &[Key::Backspace, Key::Char('x'), Key::Char('8')]);
    assert_eq!(app.new_instance_memory, "4098");
}

#[test]
fn install_from_form() {
    let mut app = App::default();
    handle_api_result(&mut app, ApiResult::VersionManifestLoaded(manifest()));
    assert_eq!(app.available_versions, vec!["1.20.1".to_string(), "1.19.4".into()]);
    app.open_new_instance();
    press(&mut app, &[Key::Tab, Key::Tab, Key::Tab, Key::Down]);
    assert_eq!(app.new_instance_version_state.selected(), Some(1));
    let actions = press(&mut app, &[Key::Enter]);
    match &actions[0] {
        Action::InstallVanilla { name, id, version, memory, java } => {
            assert_eq!(name, "Minecraft 1.19.4");
            assert_eq!(id, "Minecraft_1194");
            assert_eq!(version, "1.19.4");
            assert_eq!(*memory, 4096);
            assert_eq!(java, "java");
        }
        other => panic!("{other:?}"),
    }
    assert!(app.show_popup && app.is_loading);
    assert_eq!(app.popup_message, "Installing Minecraft 1.19.4…\nThis may take a moment.");
    let none = press(&mut app, &[Key::Enter]);
    assert!(matches!(none[0], Action::Nothing));
    let a = handle_api_result(&mut app, ApiResult::InstallSuccess {
        name: "Minecraft 1.19.4".into(), id: "Minecraft_1194".into(), version: "1.19.4".into(),
        memory: 4096, java: "java".into(), loader: "Vanilla".into(),
    });
    assert!(matches!(a, Action::SaveInstances));
    assert_eq!(app.popup_message, "'Minecraft 1.19.4' installed successfully!");
    assert!(!app.is_loading);
    assert_eq!(app.instances.len(), 1);
    press(&mut app, &[Key::Enter]);
    assert!(!app.show_popup);
}

#[test]
fn no_install_before_manifest() {
    let mut app = App::default();
    app.open_new_instance();
    let actions = press(&mut app, &[Key::Enter]);
    assert!(matches!(actions[0], Action::Nothing));
    assert!(!app.show_popup);
}

#[test]
fn launch_selected_instance() {
    let mut app = App::new(vec![inst("A", "a", 3000)], Config::default());
    app.current_screen = CurrentScreen::Instances;
    let actions = press(&mut app, &[Key::Enter]);
    match &actions[0] {
        Action::Launch { id, version, memory, java, auth } => {
            assert_eq!(id, "a");
            assert_eq!(version, "1.20.1");
            assert_eq!(*memory, 3000);
            assert_eq!(java, "java");
            assert_eq!(auth.username, "Steve");
        }
        other => panic!("{other:?}"),
    }
    assert_eq!(app.popup_message, "Launching A…");
    handle_api_result(&mut app, ApiResult::GameExited);
    assert_eq!(app.popup_message, "Game exited.");
    assert!(app.show_popup && !app.is_loading);
}

#[test]
fn modpack_search_flow() {
    let mut app = App::default();
    app.current_screen = CurrentScreen::ModpackSearch;
    press(&mut app, &[Key::Char('e'), Key::Char('f'), Key::Char('o')]);
    assert_eq!(app.input_mode, InputMode::Editing);
    let actions = press(&mut app, &[Key::Enter]);
    assert!(matches!(&actions[0], Action::Search { query } if query == "fo"));
    let hit = SearchResult {
        title: "Fabulously Optimized".into(), slug: "fo".into(), description: "d".into(),
        author: "a".into(), downloads: 5, project_type: "modpack".into(), project_id: "1KVo5zza".into(),
    };
    handle_api_result(&mut app, ApiResult::SearchSuccess(vec![hit]));
    assert_eq!(app.search_results_state.selected(), Some(0));
    let actions = press(&mut app, &[Key::Enter]);
    assert!(matches!(&actions[0], Action::FetchVersions { project_id } if project_id == "1KVo5zza"));
    assert_eq!(app.selected_modpack_name, "Fabulously Optimized");
    let file = VersionFile { url: "https://cdn/fo.mrpack".into(), filename: "fo.mrpack".into(), primary: true };
    let v = ProjectVersion { id: "v".into(), name: "v".into(), version_number: "5.0".into(),
        game_versions: vec!["1.20.1".into()], loaders: vec!["fabric".into()], files: vec![file] };
    handle_api_result(&mut app, ApiResult::VersionsSuccess(vec![v]));
    assert_eq!(app.current_screen, CurrentScreen::ModpackVersions);
    let actions = press(&mut app, &[Key::Enter]);
    assert!(matches!(actions[0], Action::Nothing));
    assert!(!app.show_popup && !app.is_loading);
    handle_api_result(&mut app, ApiResult::VersionManifestLoaded(manifest()));
    let actions = press(&mut app, &[Key::Enter]);
    assert_eq!(app.popup_message, "Installing Fabulously Optimized v5.0…\nDownloading mods, this may take a while.");
    assert!(app.show_popup && app.is_loading);
    match &actions[0] {
        Action::InstallModpack { url, name, folder_name } => {
            assert_eq!(url, "https://cdn/fo.mrpack");
            assert_eq!(name, "Fabulously Optimized");
            assert_eq!(folder_name, "Fabulously_Optimized");
        }
        other => panic!("{other:?}"),
    }
}

#[test]
fn version_without_mrpack() {
    let mut app = App::default();
    let file = VersionFile { url: "u".into(), filename: "pack.zip".into(), primary: true };
    let v = ProjectVersion { id: "v".into(), name: "v".into(), version_number: "1".into(),
        game_versions: vec![], loaders: vec![], files: vec![file] };
    handle_api_result(&mut app, ApiResult::VersionsSuccess(vec![v]));
    press(&mut app, &[Key::Enter]);
    assert_eq!(app.popup_message, "No .mrpack file found for this version.");
    assert!(app.show_popup && !app.is_loading);
}

#[test]
fn offline_login_sets_uuid() {
    let mut app = App::default();
    app.current_screen = CurrentScreen::Settings;
    let actions = press(&mut app, &[Key::Down, Key::Backspace, Key::Backspace, Key::Backspace, Key::Backspace, Key::Backspace, Key::Char('N'), Key::Char('o'), Key::Char('t'), Key::Char('c'), Key::Char('h'), Key::Enter]);
    assert!(matches!(actions.last().unwrap(), Action::SaveConfig));
    assert_eq!(app.config.auth.username, "Notch");
    assert_eq!(app.config.auth.uuid, "b50ad385-829d-3141-a216-7e7d7539ba7f");
    assert!(matches!(&app.auth_state, AuthState::Success(n) if n == "Notch"));
    assert_eq!(app.current_screen, CurrentScreen::Dashboard);
}

#[test]
fn settings_focus_skips_password_unless_ely_by() {
    let mut app = App::default();
    app.current_screen = CurrentScreen::Settings;
    press(&mut app, &[Key::Down, Key::Down]);
    assert_eq!(app.settings_focus, SettingsField::LoginButton);
    press(&mut app, &[Key::Up, Key::Up, Key::Right, Key::Right]);
    assert_eq!(app.config.auth.auth_type, AuthType::ElyBy);
    press(&mut app, &[Key::Down, Key::Down]);
    assert_eq!(app.settings_focus, SettingsField::Password);
}

#[test]
fn ely_by_login_hands_over_password() {
    let mut app = App::default();
    app.current_screen = CurrentScreen::Settings;
    app.config.auth.auth_type = AuthType::ElyBy;
    app.settings_focus = SettingsField::Password;
    let actions = press(&mut app, &[Key::Char('p'), Key::Char('w'), Key::Enter]);
    assert!(matches!(actions.last().unwrap(), Action::ElyByLogin { username, password } if username == "Steve" && password == "pw"));
    assert!(app.temp_password.is_empty());
    assert!(matches!(app.auth_state, AuthState::Authenticating));
    assert!(app.show_popup && app.is_loading);
    let action = handle_api_result(&mut app, ApiResult::AuthSuccess("Alex".into(), "uuid".into(), "tok".into()));
    assert!(matches!(action, Action::SaveConfig));
    assert_eq!(app.config.auth.username, "Alex");
    assert_eq!(app.config.auth.access_token, "tok");
    assert!(!app.show_popup && !app.is_loading);
}

#[test]
fn microsoft_login_flow() {
    let mut app = App::default();
    app.current_screen = CurrentScreen::Settings;
    app.config.auth.auth_type = AuthType::Microsoft;
    let actions = press(&mut app, &[Key::Enter]);
    assert!(matches!(actions[0], Action::MicrosoftLogin));
    assert_eq!(app.popup_message, "Starting Microsoft auth…\nOpen your browser when prompted.");
    handle_api_result(&mut app, ApiResult::AuthCode("ABCD".into(), "https://microsoft.com/link".into()));
    assert!(matches!(&app.auth_state, AuthState::WaitingForCode(c, _) if c == "ABCD"));
    assert!(!app.show_popup);
    handle_api_result(&mut app, ApiResult::AuthError("expired_token".into()));
    assert!(matches!(&app.auth_state, AuthState::Error(e) if e == "expired_token"));
}

#[test]
fn errors_are_shown() {
    let mut app = App::default();
    handle_api_result(&mut app, ApiResult::Error("boom".into()));
    assert_eq!(app.popup_message, "Error: boom");
    assert!(app.show_popup);
}

#[test]
fn loading_popup_swallows_keys() {
    let mut app = App::default();
    app.show_popup = true;
    app.is_loading = true;
    press(&mut app, &[Key::Char('q'), Key::Esc, Key::Tab]);
    assert!(app.running && app.show_popup);
    assert_eq!(app.current_screen, CurrentScreen::Dashboard);
}

#[test]
fn failed_login_ends_the_loading_popup() {
    let mut app = App::default();
    app.current_screen = CurrentScreen::Settings;
    app.config.auth.auth_type = AuthType::ElyBy;
    press(&mut app, &[Key::Enter]);
    assert!(app.show_popup && app.is_loading);
    handle_api_result(&mut app, ApiResult::AuthError("Ely.by Login Failed: 401".into()));
    assert!(!app.show_popup && !app.is_loading);
    assert!(matches!(&app.auth_state, AuthState::Error(e) if e == "Ely.by Login Failed: 401"));
}

#[test]
fn auth_type_cycles_forward_on_every_arrow() {
    let mut app = App::default();
    app.current_screen = CurrentScreen::Settings;
    let start = app.config.auth.auth_type;
    press(&mut app, &[Key::Left]);
    assert_eq!(app.config.auth.auth_type, AuthType::Microsoft);
    press(&mut app, &[Key::Char('h'), Key::Char('l')]);
    assert_eq!(app.config.auth.auth_type, start);
    assert_eq!(app.settings_focus, SettingsField::AuthType);
}

#[test]
fn settings_focus_round_trip() {
    let mut app = App::default();
    app.current_screen = CurrentScreen::Settings;
    for _ in 0..4 {
        let before = app.settings_focus;
        press(&mut app, &[Key::Tab, Key::BackTab]);
        assert_eq!(app.settings_focus, before);
        press(&mut app, &[Key::Up, Key::Down]);
        assert_eq!(app.settings_focus, before);
        press(&mut app, &[Key::Down]);
    }
}

#[test]
fn memory_field_keeps_only_digits() {
    let mut app = App::default();
    app.open_new_instance();
    app.new_instance_focus = NewInstanceField::Memory;
    press(&mut app, &[Key::Backspace, Key::Char('x'), Key::Char('8'), Key::Char(' '), Key::Left]);
    assert_eq!(app.new_instance_memory, "4098");
    assert!(app.new_instance_memory.chars().all(|c| c.is_ascii_digit()));
}

#[test]
fn arrows_round_trip_on_every_list() {
    let mut app = App::default();
    handle_api_result(&mut app, ApiResult::VersionManifestLoaded(manifest()));
    app.open_new_instance();
    app.new_instance_focus = NewInstanceField::Version;
    let start = app.new_instance_version_state.selected();
    press(&mut app, &[Key::Down, Key::Up]);
    assert_eq!(app.new_instance_version_state.selected(), start);
    press(&mut app, &[Key::Up]);
    assert_eq!(app.new_instance_version_state.selected(), Some(1));
    press(&mut app, &[Key::Down]);
    assert_eq!(app.new_instance_version_state.selected(), start);
}

#[test]
fn adding_an_instance_keeps_ids_distinct() {
    let mut app = App::new(vec![inst("A", "a", 4096), inst("B", "b", 4096)], Config::default());
    app.add_instance("A2".into(), "a".into(), "1.20.1".into(), 2048, "java".into(), "Vanilla".into());
    let ids: Vec<&str> = app.instances.iter().map(|i| i.id.as_str()).collect();
    assert_eq!(ids, vec!["b", "a"]);
}
