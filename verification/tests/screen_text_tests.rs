use minetui::app::{App, AuthState, CurrentScreen, InputMode};
use minetui::config::AuthType;
use minetui::instance::Instance;
use minetui::screen_text::{
    confirm_delete_prompt, content_title, dashboard_versions, footer_hints, header_auth_label,
    instance_details, instance_loader_tag, login_button_label, password_mask, results_title,
    search_box_text, settings_status, sidebar_label, tab_active, u64_to_string, Tone,
};

#[test]
fn header_labels() {
    let mut app = App::default();
    assert_eq!(header_auth_label(&app), " Steve (not logged in) ");
    app.auth_state = AuthState::Success("Alex".into());
    app.config.auth.auth_type = AuthType::ElyBy;
    assert_eq!(header_auth_label(&app), " Alex (Ely.by) ");
    app.auth_state = AuthState::WaitingForCode("AB12".into(), "u".into());
    assert_eq!(header_auth_label(&app), " Code: AB12 ");
}

#[test]
fn footers_and_titles() {
    let mut app = App::default();
    assert_eq!(footer_hints(&app), " Tab: Navigate   q: Quit ");
    app.current_screen = CurrentScreen::ModpackSearch;
    app.input_mode = InputMode::Editing;
    assert_eq!(footer_hints(&app), " Enter: Search   Esc: Cancel ");
    app.current_screen = CurrentScreen::NewInstance;
    assert_eq!(content_title(&app), " New Instance ");
    app.editing_instance_index = Some(0);
    assert_eq!(content_title(&app), " Edit Instance ");
    assert!(tab_active(CurrentScreen::NewInstance, CurrentScreen::Instances));
    assert!(!tab_active(CurrentScreen::NewInstance, CurrentScreen::Settings));
    assert_eq!(sidebar_label("Settings", true), "> Settings");
    assert_eq!(sidebar_label("Settings", false), "  Settings");
}

#[test]
fn counts_and_details() {
    let mut app = App::default();
    assert_eq!(dashboard_versions(&app), "Loading…");
    app.available_versions = vec!["a".into(), "b".into()];
    assert_eq!(dashboard_versions(&app), "2 releases available");
    assert_eq!(results_title(&app), " 0 Results ");
    assert_eq!(u64_to_string(1234567890123), "1234567890123");
    let i = Instance { name: "A".into(), id: "a".into(), version: "1.20.1".into(), loader: "Fabric".into(),
        max_memory: 6144, java_path: "java".into(), played_last: None };
    assert_eq!(instance_details(&i), "MC 1.20.1  |  6144MB RAM  |  java");
    assert_eq!(instance_loader_tag(&i), ("[Fabric]".to_string(), Tone::Fabric));
    assert_eq!(search_box_text(&App::default()), "Press 'e' to search Modrinth modpacks…");
}

#[test]
fn settings_texts() {
    let mut app = App::default();
    assert_eq!(login_button_label(&app), " Save ");
    app.temp_password = "pé".into();
    assert_eq!(password_mask(&app), "***");
    app.auth_state = AuthState::WaitingForCode("CODE".into(), "https://x".into());
    assert_eq!(settings_status(&app), ("Visit: https://x\nEnter code: CODE".to_string(), Tone::Warning));
    assert_eq!(confirm_delete_prompt(&app), "Delete ''?");
}
