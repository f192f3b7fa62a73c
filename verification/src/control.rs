//! The launcher as a state machine: a key press or the reply of background
//! work changes the state and names the work to start next.
use vstd::prelude::*;
use crate::text::{
    all_whitespace, concat2, concat3, concat4, decimal, folder_name, is_ascii_digit,
    parse_u32_spec, char_is_ascii_digit, parse_u32, pop_char, push_char, or_if_blank, is_blank,
    sanitize_folder_name, text, views,
};
use crate::app::{
    App, AppView, AuthState, AuthStateView, CurrentScreen, InputMode, ModpackResult,
    ModpackResultView, NewInstanceField, SettingsField, result_views,
};
use crate::config::{AuthData, AuthDataView, AuthType, ConfigView};
use crate::auth::{generate_offline_uuid, offline_uuid};
use crate::modrinth::{ProjectVersion, SearchResult, first_mrpack_file, first_mrpack_index};
use crate::versions::{VersionManifest, release_ids, release_version_ids};

verus! {

/// A key press, as far as the launcher tells keys apart.
#[derive(Debug, Clone, Copy, PartialEq, Eq, Structural)]
pub enum Key {
    Char(char),
    Enter,
    Esc,
    Tab,
    BackTab,
    Up,
    Down,
    Left,
    Right,
    Backspace,
    Other,
}

/// Work to start after an event.
#[derive(Debug)]
pub enum Action {
    Nothing,
    /// Write the instance list to disk.
    SaveInstances,
    /// Write the configuration to disk.
    SaveConfig,
    /// Start an instance with an account.
    Launch { id: String, version: String, memory: u32, java: String, auth: AuthData },
    /// Install a game version as a new instance, using the loaded manifest.
    InstallVanilla { name: String, id: String, version: String, memory: u32, java: String },
    /// Search Modrinth for modpacks.
    Search { query: String },
    /// Fetch the versions of a Modrinth project.
    FetchVersions { project_id: String },
    /// Install a modpack archive into a new instance folder.
    InstallModpack { url: String, name: String, folder_name: String },
    /// Start the Microsoft device-code login.
    MicrosoftLogin,
    /// Log in to Ely.by.
    ElyByLogin { username: String, password: String },
}

pub enum ActionView {
    Nothing,
    SaveInstances,
    SaveConfig,
    Launch { id: Seq<char>, version: Seq<char>, memory: u32, java: Seq<char>, auth: AuthDataView },
    InstallVanilla {
        name: Seq<char>,
        id: Seq<char>,
        version: Seq<char>,
        memory: u32,
        java: Seq<char>,
    },
    Search { query: Seq<char> },
    FetchVersions { project_id: Seq<char> },
    InstallModpack { url: Seq<char>, name: Seq<char>, folder_name: Seq<char> },
    MicrosoftLogin,
    ElyByLogin { username: Seq<char>, password: Seq<char> },
}

impl View for Action {
    type V = ActionView;

    open spec fn view(&self) -> ActionView {
        match self {
            Action::Nothing => ActionView::Nothing,
            Action::SaveInstances => ActionView::SaveInstances,
            Action::SaveConfig => ActionView::SaveConfig,
            Action::Launch { id, version, memory, java, auth } => ActionView::Launch {
                id: id@,
                version: version@,
                memory: *memory,
                java: java@,
                auth: auth@,
            },
            Action::InstallVanilla { name, id, version, memory, java } => ActionView::InstallVanilla {
                name: name@,
                id: id@,
                version: version@,
                memory: *memory,
                java: java@,
            },
            Action::Search { query } => ActionView::Search { query: query@ },
            Action::FetchVersions { project_id } => ActionView::FetchVersions {
                project_id: project_id@,
            },
            Action::InstallModpack { url, name, folder_name } => ActionView::InstallModpack {
                url: url@,
                name: name@,
                folder_name: folder_name@,
            },
            Action::MicrosoftLogin => ActionView::MicrosoftLogin,
            Action::ElyByLogin { username, password } => ActionView::ElyByLogin {
                username: username@,
                password: password@,
            },
        }
    }
}

// ---------------------------------------------------------------------------
// What a key does
// ---------------------------------------------------------------------------

/// A text field after a key: characters are appended, Backspace removes the
/// last one, other keys leave it.
pub open spec fn edit_text(s: Seq<char>, key: Key) -> Seq<char> {
    match key {
        Key::Char(c) => s.push(c),
        Key::Backspace => if s.len() > 0 {
            s.drop_last()
        } else {
            s
        },
        _ => s,
    }
}

/// The memory field only takes ASCII digits.
pub open spec fn edit_digits(s: Seq<char>, key: Key) -> Seq<char> {
    match key {
        Key::Char(c) => if is_ascii_digit(c) {
            s.push(c)
        } else {
            s
        },
        _ => edit_text(s, key),
    }
}

/// The memory typed in the form, 4096 when it is not a number.
pub open spec fn form_memory(v: AppView) -> u32 {
    match parse_u32_spec(v.new_instance_memory) {
        Some(m) => m,
        None => 4096,
    }
}

/// The Java path typed in the form, `java` when it is blank.
pub open spec fn form_java(v: AppView) -> Seq<char> {
    if all_whitespace(v.new_instance_java) {
        "java"@
    } else {
        v.new_instance_java
    }
}

pub open spec fn with_popup(v: AppView, message: Seq<char>) -> AppView {
    AppView { popup_message: message, show_popup: true, is_loading: true, ..v }
}

/// Installing from the form: the selected version (or `Unknown`), the typed
/// name (or `Minecraft <version>`), a folder derived from the name. Nothing
/// happens before the version manifest is loaded.
pub open spec fn spawn_install_spec(v: AppView) -> (AppView, ActionView) {
    if v.manifest is None {
        (v, ActionView::Nothing)
    } else {
        let version = match v.new_instance_version_state {
            Some(i) => if i < v.available_versions.len() {
                v.available_versions[i as int]
            } else {
                "Unknown"@
            },
            None => "Unknown"@,
        };
        let name = if all_whitespace(v.new_instance_name) {
            "Minecraft "@ + version
        } else {
            v.new_instance_name
        };
        (
            with_popup(v, "Installing "@ + name + "…\nThis may take a moment."@),
            ActionView::InstallVanilla {
                name,
                id: folder_name(name),
                version,
                memory: form_memory(v),
                java: form_java(v),
            },
        )
    }
}

pub open spec fn dashboard_key(v: AppView, key: Key) -> (AppView, ActionView) {
    match key {
        Key::Tab => (v.next_tab(), ActionView::Nothing),
        Key::BackTab => (v.previous_tab(), ActionView::Nothing),
        _ => (v, ActionView::Nothing),
    }
}

pub open spec fn instances_key(v: AppView, key: Key) -> (AppView, ActionView) {
    match key {
        Key::Char('j') | Key::Down => (v.next_item(), ActionView::Nothing),
        Key::Char('k') | Key::Up => (v.previous_item(), ActionView::Nothing),
        Key::Char('n') => (v.open_new_instance(), ActionView::Nothing),
        Key::Char('e') => (v.open_edit_instance(), ActionView::Nothing),
        Key::Char('d') => if v.instances.len() > 0 {
            (AppView { confirm_delete: true, ..v }, ActionView::Nothing)
        } else {
            (v, ActionView::Nothing)
        },
        Key::Enter => match v.instance_list_state {
            Some(i) => if i < v.instances.len() {
                let inst = v.instances[i as int];
                (
                    with_popup(v, "Launching "@ + inst.name + "…"@),
                    ActionView::Launch {
                        id: inst.id,
                        version: inst.version,
                        memory: inst.max_memory,
                        java: inst.java_path,
                        auth: v.config.auth,
                    },
                )
            } else {
                (v, ActionView::Nothing)
            },
            None => (v, ActionView::Nothing),
        },
        Key::Tab => (v.next_tab(), ActionView::Nothing),
        Key::BackTab => (v.previous_tab(), ActionView::Nothing),
        _ => (v, ActionView::Nothing),
    }
}

pub open spec fn new_instance_key(v: AppView, key: Key) -> (AppView, ActionView) {
    match key {
        Key::Esc => (
            AppView {
                current_screen: CurrentScreen::Instances,
                editing_instance_index: None,
                ..v
            },
            ActionView::Nothing,
        ),
        Key::Tab => (v.cycle_new_instance_focus(), ActionView::Nothing),
        Key::Enter => match v.editing_instance_index {
            Some(index) => (
                v.update_instance(index, v.new_instance_name, form_memory(v), form_java(v)),
                ActionView::SaveInstances,
            ),
            None => spawn_install_spec(v),
        },
        _ => match v.new_instance_focus {
            NewInstanceField::Name => (
                AppView { new_instance_name: edit_text(v.new_instance_name, key), ..v },
                ActionView::Nothing,
            ),
            NewInstanceField::Memory => (
                AppView { new_instance_memory: edit_digits(v.new_instance_memory, key), ..v },
                ActionView::Nothing,
            ),
            NewInstanceField::JavaPath => (
                AppView { new_instance_java: edit_text(v.new_instance_java, key), ..v },
                ActionView::Nothing,
            ),
            NewInstanceField::Version => match key {
                Key::Char('j') | Key::Down => (v.next_item(), ActionView::Nothing),
                Key::Char('k') | Key::Up => (v.previous_item(), ActionView::Nothing),
                _ => (v, ActionView::Nothing),
            },
        },
    }
}

pub open spec fn modpack_search_key(v: AppView, key: Key) -> (AppView, ActionView) {
    match v.input_mode {
        InputMode::Editing => match key {
            Key::Enter => (
                AppView { input_mode: InputMode::Normal, ..v },
                ActionView::Search { query: v.search_query },
            ),
            Key::Esc => (AppView { input_mode: InputMode::Normal, ..v }, ActionView::Nothing),
            Key::Char(_) | Key::Backspace => (
                AppView { search_query: edit_text(v.search_query, key), ..v },
                ActionView::Nothing,
            ),
            _ => (v, ActionView::Nothing),
        },
        InputMode::Normal => match key {
            Key::Char('e') | Key::Char('/') => (
                AppView { input_mode: InputMode::Editing, ..v },
                ActionView::Nothing,
            ),
            Key::Char('j') | Key::Down => (v.next_item(), ActionView::Nothing),
            Key::Char('k') | Key::Up => (v.previous_item(), ActionView::Nothing),
            Key::Enter => match v.search_results_state {
                Some(i) => if i < v.modpack_results.len() {
                    let pack = v.modpack_results[i as int];
                    (
                        AppView {
                            selected_modpack_name: pack.title,
                            ..with_popup(v, "Fetching versions for "@ + pack.title + "…"@)
                        },
                        ActionView::FetchVersions { project_id: pack.project_id },
                    )
                } else {
                    (v, ActionView::Nothing)
                },
                None => (v, ActionView::Nothing),
            },
            Key::Tab => (v.next_tab(), ActionView::Nothing),
            Key::BackTab => (v.previous_tab(), ActionView::Nothing),
            Key::Char('q') => (v.quit(), ActionView::Nothing),
            _ => (v, ActionView::Nothing),
        },
    }
}

/// Installing the selected modpack version from its `.mrpack` archive into a
/// folder named after the modpack; the base game is installed from the
/// manifest afterwards, so before it is loaded nothing is started and no
/// popup is shown.
pub open spec fn modpack_versions_key(v: AppView, key: Key) -> (AppView, ActionView) {
    match key {
        Key::Esc => (AppView { current_screen: CurrentScreen::ModpackSearch, ..v }, ActionView::Nothing),
        Key::Char('j') | Key::Down => (v.next_item(), ActionView::Nothing),
        Key::Char('k') | Key::Up => (v.previous_item(), ActionView::Nothing),
        Key::Enter => match v.modpack_version_list_state {
            Some(i) => if i < v.modpack_versions.len() {
                let version = v.modpack_versions[i as int];
                match first_mrpack_index(version.files@) {
                    Some(f) => {
                        let name = v.selected_modpack_name;
                        if v.manifest is Some {
                            let w = with_popup(
                                v,
                                "Installing "@ + name + " v"@ + version.version_number@
                                    + "…\nDownloading mods, this may take a while."@,
                            );
                            (
                                w,
                                ActionView::InstallModpack {
                                    url: version.files@[f].url@,
                                    name,
                                    folder_name: folder_name(name),
                                },
                            )
                        } else {
                            (v, ActionView::Nothing)
                        }
                    },
                    None => (
                        AppView {
                            popup_message: "No .mrpack file found for this version."@,
                            show_popup: true,
                            ..v
                        },
                        ActionView::Nothing,
                    ),
                }
            } else {
                (v, ActionView::Nothing)
            },
            None => (v, ActionView::Nothing),
        },
        _ => (v, ActionView::Nothing),
    }
}

/// Moving down the settings form skips the password unless Ely.by is chosen.
pub open spec fn next_settings_focus(v: AppView) -> SettingsField {
    match v.settings_focus {
        SettingsField::AuthType => SettingsField::Username,
        SettingsField::Username => if v.config.auth.auth_type == AuthType::ElyBy {
            SettingsField::Password
        } else {
            SettingsField::LoginButton
        },
        SettingsField::Password => SettingsField::LoginButton,
        SettingsField::LoginButton => SettingsField::AuthType,
    }
}

pub open spec fn previous_settings_focus(v: AppView) -> SettingsField {
    match v.settings_focus {
        SettingsField::AuthType => SettingsField::LoginButton,
        SettingsField::Username => SettingsField::AuthType,
        SettingsField::Password => SettingsField::Username,
        SettingsField::LoginButton => if v.config.auth.auth_type == AuthType::ElyBy {
            SettingsField::Password
        } else {
            SettingsField::Username
        },
    }
}

pub open spec fn next_auth_type(t: AuthType) -> AuthType {
    match t {
        AuthType::Offline => AuthType::Microsoft,
        AuthType::Microsoft => AuthType::ElyBy,
        AuthType::ElyBy => AuthType::Offline,
    }
}

pub open spec fn with_auth(v: AppView, auth: AuthDataView) -> AppView {
    AppView { config: ConfigView { auth, ..v.config }, ..v }
}

/// The focused settings field after a key.
pub open spec fn settings_input(v: AppView, key: Key) -> AppView {
    match v.settings_focus {
        SettingsField::AuthType => match key {
            Key::Left | Key::Right | Key::Char('h') | Key::Char('l') => with_auth(
                v,
                AuthDataView { auth_type: next_auth_type(v.config.auth.auth_type), ..v.config.auth },
            ),
            _ => v,
        },
        SettingsField::Username => with_auth(
            v,
            AuthDataView { username: edit_text(v.config.auth.username, key), ..v.config.auth },
        ),
        SettingsField::Password => AppView { temp_password: edit_text(v.temp_password, key), ..v },
        SettingsField::LoginButton => v,
    }
}

/// Enter on the settings: an offline account gets its UUID and is saved; the
/// other two start their login in the background (the Ely.by password is
/// handed over and cleared).
pub open spec fn settings_submit(v: AppView) -> (AppView, ActionView) {
    match v.config.auth.auth_type {
        AuthType::Offline => {
            let w = with_auth(
                v,
                AuthDataView { uuid: offline_uuid(v.config.auth.username), ..v.config.auth },
            );
            (
                AppView {
                    auth_state: AuthStateView::Success(v.config.auth.username),
                    current_screen: CurrentScreen::Dashboard,
                    ..w
                },
                ActionView::SaveConfig,
            )
        },
        AuthType::Microsoft => (
            AppView {
                auth_state: AuthStateView::Authenticating,
                current_screen: CurrentScreen::Dashboard,
                ..with_popup(v, "Starting Microsoft auth…\nOpen your browser when prompted."@)
            },
            ActionView::MicrosoftLogin,
        ),
        AuthType::ElyBy => (
            AppView {
                auth_state: AuthStateView::Authenticating,
                current_screen: CurrentScreen::Dashboard,
                temp_password: Seq::empty(),
                ..with_popup(v, "Logging in to Ely.by…"@)
            },
            ActionView::ElyByLogin { username: v.config.auth.username, password: v.temp_password },
        ),
    }
}

pub open spec fn settings_key(v: AppView, key: Key) -> (AppView, ActionView) {
    match key {
        Key::Esc => (AppView { current_screen: CurrentScreen::Dashboard, ..v }, ActionView::Nothing),
        Key::Tab | Key::Down => (
            AppView { settings_focus: next_settings_focus(v), ..v },
            ActionView::Nothing,
        ),
        Key::BackTab | Key::Up => (
            AppView { settings_focus: previous_settings_focus(v), ..v },
            ActionView::Nothing,
        ),
        _ => {
            let w = settings_input(v, key);
            if key == Key::Enter {
                settings_submit(w)
            } else {
                (w, ActionView::Nothing)
            }
        },
    }
}

/// Whether keys go to a text field rather than to the global shortcuts.
pub open spec fn in_text_field(v: AppView) -> bool {
    v.input_mode == InputMode::Editing || v.current_screen == CurrentScreen::NewInstance
        || v.current_screen == CurrentScreen::Settings
}

pub open spec fn screen_key(v: AppView, key: Key) -> (AppView, ActionView) {
    match v.current_screen {
        CurrentScreen::Dashboard => dashboard_key(v, key),
        CurrentScreen::Instances => instances_key(v, key),
        CurrentScreen::NewInstance => new_instance_key(v, key),
        CurrentScreen::ModpackSearch => modpack_search_key(v, key),
        CurrentScreen::ModpackVersions => modpack_versions_key(v, key),
        CurrentScreen::Settings => settings_key(v, key),
    }
}

/// What a key does: a pending delete confirmation takes it first, then an
/// open popup (which only closes once its work is done), then the global
/// quit and tab keys outside text fields, then the current screen.
pub open spec fn handle_key_spec(v: AppView, key: Key) -> (AppView, ActionView) {
    if v.confirm_delete {
        match key {
            Key::Enter => {
                let w = AppView { confirm_delete: false, ..v };
                (
                    w.delete_selected_instance(),
                    if w.deletes_instance() {
                        ActionView::SaveInstances
                    } else {
                        ActionView::Nothing
                    },
                )
            },
            Key::Esc | Key::Char('q') => (AppView { confirm_delete: false, ..v }, ActionView::Nothing),
            _ => (v, ActionView::Nothing),
        }
    } else if v.show_popup && !v.is_loading {
        match key {
            Key::Esc | Key::Enter | Key::Char('q') => (v.close_popup(), ActionView::Nothing),
            _ => (v, ActionView::Nothing),
        }
    } else if v.show_popup {
        (v, ActionView::Nothing)
    } else if !in_text_field(v) && key == Key::Char('q') {
        (v.quit(), ActionView::Nothing)
    } else if !in_text_field(v) && key == Key::Tab {
        (v.next_tab(), ActionView::Nothing)
    } else if !in_text_field(v) && key == Key::BackTab {
        (v.previous_tab(), ActionView::Nothing)
    } else {
        screen_key(v, key)
    }
}

// ---------------------------------------------------------------------------
// The key handlers
// ---------------------------------------------------------------------------

fn edit_field(s: &mut String, key: Key)
    ensures
        final(s)@ == edit_text(old(s)@, key),
{
    match key {
        Key::Char(c) => push_char(s, c),
        Key::Backspace => {
            pop_char(s);
        },
        _ => {},
    }
}

fn popup(app: &mut App, message: String)
    ensures
        final(app)@ == with_popup(old(app)@, message@),
{
    app.popup_message = message;
    app.show_popup = true;
    app.is_loading = true;
    assert(app@ =~= with_popup(old(app)@, message@));
}

fn handle_dashboard(app: &mut App, key: Key) -> (a: Action)
    ensures
        (final(app)@, a@) == dashboard_key(old(app)@, key),
{
    match key {
        Key::Tab => app.next_tab(),
        Key::BackTab => app.previous_tab(),
        _ => {},
    }
    Action::Nothing
}

fn handle_instances(app: &mut App, key: Key) -> (a: Action)
    requires
        old(app)@.selections_bounded(),
    ensures
        (final(app)@, a@) == instances_key(old(app)@, key),
{
    match key {
        Key::Char('j') | Key::Down => app.next_item(),
        Key::Char('k') | Key::Up => app.previous_item(),
        Key::Char('n') => app.open_new_instance(),
        Key::Char('e') => app.open_edit_instance(),
        Key::Char('d') => {
            if app.instances.len() > 0 {
                app.confirm_delete = true;
                assert(app@ =~= (AppView { confirm_delete: true, ..old(app)@ }));
            }
        },
        Key::Enter => {
            if let Some(idx) = app.instance_list_state.selected() {
                if idx < app.instances.len() {
                    let ghost inst = old(app)@.instances[idx as int];
                    assert(inst == app.instances@[idx as int]@);
                    let id = app.instances[idx].id.clone();
                    let version = app.instances[idx].version.clone();
                    let memory = app.instances[idx].max_memory;
                    let java = app.instances[idx].java_path.clone();
                    let auth = app.config.auth.duplicate();
                    let message = concat3("Launching ", app.instances[idx].name.as_str(), "…");
                    popup(app, message);
                    return Action::Launch { id, version, memory, java, auth };
                }
            }
        },
        Key::Tab => app.next_tab(),
        Key::BackTab => app.previous_tab(),
        _ => {},
    }
    Action::Nothing
}

fn spawn_install(app: &mut App) -> (a: Action)
    ensures
        (final(app)@, a@) == spawn_install_spec(old(app)@),
{
    if app.manifest.is_none() {
        return Action::Nothing;
    }
    let version = match app.new_instance_version_state.selected() {
        Some(i) => if i < app.available_versions.len() {
            app.available_versions[i].clone()
        } else {
            text("Unknown")
        },
        None => text("Unknown"),
    };
    let name = if is_blank(app.new_instance_name.as_str()) {
        concat2("Minecraft ", version.as_str())
    } else {
        app.new_instance_name.clone()
    };
    let id = sanitize_folder_name(name.as_str());
    let memory = match parse_u32(app.new_instance_memory.as_str()) {
        Some(m) => m,
        None => 4096,
    };
    let java = or_if_blank(app.new_instance_java.as_str(), "java");
    let message = concat3("Installing ", name.as_str(), "…\nThis may take a moment.");
    popup(app, message);
    Action::InstallVanilla { name, id, version, memory, java }
}

fn handle_new_instance(app: &mut App, key: Key) -> (a: Action)
    requires
        old(app)@.selections_bounded(),
    ensures
        (final(app)@, a@) == new_instance_key(old(app)@, key),
{
    match key {
        Key::Esc => {
            app.current_screen = CurrentScreen::Instances;
            app.editing_instance_index = None;
            assert(app@ =~= (AppView {
                current_screen: CurrentScreen::Instances,
                editing_instance_index: None,
                ..old(app)@
            }));
            Action::Nothing
        },
        Key::Tab => {
            app.cycle_new_instance_focus();
            Action::Nothing
        },
        Key::Enter => {
            match app.editing_instance_index {
                Some(index) => {
                    let name = app.new_instance_name.clone();
                    let memory = match parse_u32(app.new_instance_memory.as_str()) {
                        Some(m) => m,
                        None => 4096,
                    };
                    let java = or_if_blank(app.new_instance_java.as_str(), "java");
                    app.update_instance(index, name, memory, java);
                    Action::SaveInstances
                },
                None => spawn_install(app),
            }
        },
        _ => {
            match app.new_instance_focus {
                NewInstanceField::Name => {
                    edit_field(&mut app.new_instance_name, key);
                    assert(app@ =~= (AppView {
                        new_instance_name: edit_text(old(app)@.new_instance_name, key),
                        ..old(app)@
                    }));
                },
                NewInstanceField::Memory => {
                    match key {
                        Key::Char(c) => {
                            if char_is_ascii_digit(c) {
                                push_char(&mut app.new_instance_memory, c);
                            }
                        },
                        Key::Backspace => {
                            pop_char(&mut app.new_instance_memory);
                        },
                        _ => {},
                    }
                    assert(app@ =~= (AppView {
                        new_instance_memory: edit_digits(old(app)@.new_instance_memory, key),
                        ..old(app)@
                    }));
                },
                NewInstanceField::JavaPath => {
                    edit_field(&mut app.new_instance_java, key);
                    assert(app@ =~= (AppView {
                        new_instance_java: edit_text(old(app)@.new_instance_java, key),
                        ..old(app)@
                    }));
                },
                NewInstanceField::Version => {
                    match key {
                        Key::Char('j') | Key::Down => app.next_item(),
                        Key::Char('k') | Key::Up => app.previous_item(),
                        _ => {},
                    }
                },
            }
            Action::Nothing
        },
    }
}

fn handle_modpack_search(app: &mut App, key: Key) -> (a: Action)
    requires
        old(app)@.selections_bounded(),
    ensures
        (final(app)@, a@) == modpack_search_key(old(app)@, key),
{
    match app.input_mode {
        InputMode::Editing => {
            match key {
                Key::Enter => {
                    app.input_mode = InputMode::Normal;
                    assert(app@ =~= (AppView { input_mode: InputMode::Normal, ..old(app)@ }));
                    return Action::Search { query: app.search_query.clone() };
                },
                Key::Esc => {
                    app.input_mode = InputMode::Normal;
                    assert(app@ =~= (AppView { input_mode: InputMode::Normal, ..old(app)@ }));
                },
                Key::Char(_) | Key::Backspace => {
                    edit_field(&mut app.search_query, key);
                    assert(app@ =~= (AppView {
                        search_query: edit_text(old(app)@.search_query, key),
                        ..old(app)@
                    }));
                },
                _ => {},
            }
            Action::Nothing
        },
        InputMode::Normal => {
            match key {
                Key::Char('e') | Key::Char('/') => {
                    app.input_mode = InputMode::Editing;
                    assert(app@ =~= (AppView { input_mode: InputMode::Editing, ..old(app)@ }));
                },
                Key::Char('j') | Key::Down => app.next_item(),
                Key::Char('k') | Key::Up => app.previous_item(),
                Key::Enter => {
                    if let Some(idx) = app.search_results_state.selected() {
                        if idx < app.modpack_results.len() {
                            let ghost pack = old(app)@.modpack_results[idx as int];
                            assert(pack == app.modpack_results@[idx as int]@);
                            let id = app.modpack_results[idx].project_id.clone();
                            let name = app.modpack_results[idx].title.clone();
                            let message = concat3("Fetching versions for ", name.as_str(), "…");
                            app.selected_modpack_name = name;
                            let ghost mid = app@;
                            popup(app, message);
                            assert(app@ =~= (AppView {
                                selected_modpack_name: pack.title,
                                ..with_popup(old(app)@, message@)
                            }));
                            return Action::FetchVersions { project_id: id };
                        }
                    }
                },
                Key::Tab => app.next_tab(),
                Key::BackTab => app.previous_tab(),
                Key::Char('q') => app.quit(),
                _ => {},
            }
            Action::Nothing
        },
    }
}

fn handle_modpack_versions(app: &mut App, key: Key) -> (a: Action)
    requires
        old(app)@.selections_bounded(),
    ensures
        (final(app)@, a@) == modpack_versions_key(old(app)@, key),
{
    match key {
        Key::Esc => {
            app.current_screen = CurrentScreen::ModpackSearch;
            assert(app@ =~= (AppView { current_screen: CurrentScreen::ModpackSearch, ..old(app)@ }));
        },
        Key::Char('j') | Key::Down => app.next_item(),
        Key::Char('k') | Key::Up => app.previous_item(),
        Key::Enter => {
            if let Some(idx) = app.modpack_version_list_state.selected() {
                if idx < app.modpack_versions.len() {
                    let ghost version = old(app)@.modpack_versions[idx as int];
                    assert(app.modpack_versions@[idx as int] == version);
                    let vref = &app.modpack_versions[idx];
                    assert(*vref == version);
                    let found = first_mrpack_file(vref);
                    assert(found is Some ==> first_mrpack_index(vref.files@) is Some);
                    match found {
                        Some(f) => {
                            proof {
                                match first_mrpack_index(version.files@) {
                                    Some(i) => {
                                        assert(f as int == i);
                                    },
                                    None => {},
                                }
                            }
                            if app.manifest.is_none() {
                                return Action::Nothing;
                            }
                            let url = app.modpack_versions[idx].files[f].url.clone();
                            let name = app.selected_modpack_name.clone();
                            let message = concat4(
                                "Installing ",
                                name.as_str(),
                                " v",
                                app.modpack_versions[idx].version_number.as_str(),
                            );
                            let mut message = message;
                            message.append("…\nDownloading mods, this may take a while.");
                            popup(app, message);
                            assert(message@ == "Installing "@ + name@ + " v"@ + version.version_number@
                                + "…\nDownloading mods, this may take a while."@);
                            assert(url@ == version.files@[f as int].url@);
                            let folder_name = sanitize_folder_name(name.as_str());
                            assert(first_mrpack_index(version.files@) == Some(f as int));
                            return Action::InstallModpack { url, name, folder_name };
                        },
                        None => {
                            app.popup_message = text("No .mrpack file found for this version.");
                            app.show_popup = true;
                            assert(app@ =~= (AppView {
                                popup_message: "No .mrpack file found for this version."@,
                                show_popup: true,
                                ..old(app)@
                            }));
                        },
                    }
                }
            }
        },
        _ => {},
    }
    Action::Nothing
}

fn set_auth_type(app: &mut App, t: AuthType)
    ensures
        final(app)@ == with_auth(old(app)@, AuthDataView { auth_type: t, ..old(app)@.config.auth }),
{
    app.config.auth.auth_type = t;
    assert(app@ =~= with_auth(old(app)@, AuthDataView { auth_type: t, ..old(app)@.config.auth }));
}

fn settings_input_exec(app: &mut App, key: Key)
    ensures
        final(app)@ == settings_input(old(app)@, key),
{
    match app.settings_focus {
        SettingsField::AuthType => {
            match key {
                Key::Left | Key::Right | Key::Char('h') | Key::Char('l') => {
                    let t = match app.config.auth.auth_type {
                        AuthType::Offline => AuthType::Microsoft,
                        AuthType::Microsoft => AuthType::ElyBy,
                        AuthType::ElyBy => AuthType::Offline,
                    };
                    set_auth_type(app, t);
                },
                _ => {},
            }
        },
        SettingsField::Username => {
            edit_field(&mut app.config.auth.username, key);
            assert(app@ =~= settings_input(old(app)@, key));
        },
        SettingsField::Password => {
            edit_field(&mut app.temp_password, key);
            assert(app@ =~= settings_input(old(app)@, key));
        },
        SettingsField::LoginButton => {},
    }
}

fn settings_submit_exec(app: &mut App) -> (a: Action)
    ensures
        (final(app)@, a@) == settings_submit(old(app)@),
{
    match app.config.auth.auth_type {
        AuthType::Offline => {
            app.config.auth.uuid = generate_offline_uuid(app.config.auth.username.as_str());
            app.auth_state = AuthState::Success(app.config.auth.username.clone());
            app.current_screen = CurrentScreen::Dashboard;
            assert(app@ =~= settings_submit(old(app)@).0);
            Action::SaveConfig
        },
        AuthType::Microsoft => {
            popup(app, text("Starting Microsoft auth…\nOpen your browser when prompted."));
            app.auth_state = AuthState::Authenticating;
            app.current_screen = CurrentScreen::Dashboard;
            assert(app@ =~= settings_submit(old(app)@).0);
            Action::MicrosoftLogin
        },
        AuthType::ElyBy => {
            popup(app, text("Logging in to Ely.by…"));
            app.auth_state = AuthState::Authenticating;
            app.current_screen = CurrentScreen::Dashboard;
            let username = app.config.auth.username.clone();
            let mut password = String::new();
            std::mem::swap(&mut password, &mut app.temp_password);
            assert(app@ =~= settings_submit(old(app)@).0);
            Action::ElyByLogin { username, password }
        },
    }
}

fn handle_settings(app: &mut App, key: Key) -> (a: Action)
    ensures
        (final(app)@, a@) == settings_key(old(app)@, key),
{
    match key {
        Key::Esc => {
            app.current_screen = CurrentScreen::Dashboard;
            assert(app@ =~= (AppView { current_screen: CurrentScreen::Dashboard, ..old(app)@ }));
            return Action::Nothing;
        },
        Key::Tab | Key::Down => {
            app.settings_focus = match app.settings_focus {
                SettingsField::AuthType => SettingsField::Username,
                SettingsField::Username => {
                    if app.config.auth.auth_type == AuthType::ElyBy {
                        SettingsField::Password
                    } else {
                        SettingsField::LoginButton
                    }
                },
                SettingsField::Password => SettingsField::LoginButton,
                SettingsField::LoginButton => SettingsField::AuthType,
            };
            assert(app@ =~= (AppView { settings_focus: next_settings_focus(old(app)@), ..old(app)@ }));
            return Action::Nothing;
        },
        Key::BackTab | Key::Up => {
            app.settings_focus = match app.settings_focus {
                SettingsField::AuthType => SettingsField::LoginButton,
                SettingsField::Username => SettingsField::AuthType,
                SettingsField::Password => SettingsField::Username,
                SettingsField::LoginButton => {
                    if app.config.auth.auth_type == AuthType::ElyBy {
                        SettingsField::Password
                    } else {
                        SettingsField::Username
                    }
                },
            };
            assert(app@ =~= (AppView {
                settings_focus: previous_settings_focus(old(app)@),
                ..old(app)@
            }));
            return Action::Nothing;
        },
        _ => {},
    }
    settings_input_exec(app, key);
    match key {
        Key::Enter => settings_submit_exec(app),
        _ => Action::Nothing,
    }
}

/// Handles a key press: updates the state and names the work to start.
pub fn handle_key(app: &mut App, key: Key) -> (a: Action)
    requires
        old(app)@.selections_bounded(),
    ensures
        (final(app)@, a@) == handle_key_spec(old(app)@, key),
        final(app)@.selections_bounded(),
        old(app)@.instance_selection_valid() ==> final(app)@.instance_selection_valid(),
{
    let n1 = app.instances.len();
    let n2 = app.modpack_results.len();
    let n3 = app.modpack_versions.len();
    let n4 = app.available_versions.len();
    assert(crate::laws::lists_fit(app@));
    let ghost before = app@;
    let a = handle_key_inner(app, key);
    proof {
        crate::laws::lemma_key_keeps_selections(before, key);
    }
    a
}

fn handle_key_inner(app: &mut App, key: Key) -> (a: Action)
    requires
        old(app)@.selections_bounded(),
    ensures
        (final(app)@, a@) == handle_key_spec(old(app)@, key),
{
    if app.confirm_delete {
        match key {
            Key::Enter => {
                app.confirm_delete = false;
                assert(app@ =~= (AppView { confirm_delete: false, ..old(app)@ }));
                if app.delete_selected_instance() {
                    return Action::SaveInstances;
                }
            },
            Key::Esc | Key::Char('q') => {
                app.confirm_delete = false;
                assert(app@ =~= (AppView { confirm_delete: false, ..old(app)@ }));
            },
            _ => {},
        }
        return Action::Nothing;
    }
    if app.show_popup && !app.is_loading {
        match key {
            Key::Esc | Key::Enter | Key::Char('q') => app.close_popup(),
            _ => {},
        }
        return Action::Nothing;
    }
    if app.show_popup && app.is_loading {
        return Action::Nothing;
    }
    let in_text = app.input_mode == InputMode::Editing || app.current_screen
        == CurrentScreen::NewInstance || app.current_screen == CurrentScreen::Settings;
    if !in_text {
        match key {
            Key::Char('q') => {
                app.quit();
                return Action::Nothing;
            },
            Key::Tab => {
                app.next_tab();
                return Action::Nothing;
            },
            Key::BackTab => {
                app.previous_tab();
                return Action::Nothing;
            },
            _ => {},
        }
    }
    match app.current_screen {
        CurrentScreen::Dashboard => handle_dashboard(app, key),
        CurrentScreen::Instances => handle_instances(app, key),
        CurrentScreen::NewInstance => handle_new_instance(app, key),
        CurrentScreen::ModpackSearch => handle_modpack_search(app, key),
        CurrentScreen::ModpackVersions => handle_modpack_versions(app, key),
        CurrentScreen::Settings => handle_settings(app, key),
    }
}


// ---------------------------------------------------------------------------
// Replies of background work
// ---------------------------------------------------------------------------

/// The reply of work started in the background.
#[derive(Debug)]
pub enum ApiResult {
    SearchSuccess(Vec<SearchResult>),
    VersionsSuccess(Vec<ProjectVersion>),
    VersionManifestLoaded(VersionManifest),
    InstallSuccess { name: String, id: String, version: String, memory: u32, java: String, loader: String },
    Error(String),
    GameExited,
    /// User code and verification URI of a device-code login.
    AuthCode(String, String),
    /// Name, UUID and access token of a completed login.
    AuthSuccess(String, String, String),
    AuthError(String),
}

pub open spec fn hit_view(h: SearchResult) -> ModpackResultView {
    ModpackResultView {
        title: h.title@,
        slug: h.slug@,
        description: h.description@,
        author: h.author@,
        downloads: h.downloads,
        project_id: h.project_id@,
    }
}

pub open spec fn hit_views(hits: Seq<SearchResult>) -> Seq<ModpackResultView> {
    hits.map_values(|h: SearchResult| hit_view(h))
}

/// What a reply does. A loaded manifest offers its release versions; search
/// hits replace the results (the first one selected); fetched versions open
/// the version list; an installed instance is added (and the list saved);
/// errors and the end of the game are shown; login progress and success are
/// recorded (the account is saved).
pub open spec fn api_result_spec(v: AppView, r: ApiResult) -> (AppView, ActionView) {
    match r {
        ApiResult::VersionManifestLoaded(m) => (
            AppView { available_versions: release_ids(m.versions@), manifest: Some(m), ..v },
            ActionView::Nothing,
        ),
        ApiResult::SearchSuccess(hits) => (
            AppView {
                modpack_results: hit_views(hits@),
                search_results_state: if hits@.len() > 0 {
                    Some(0)
                } else {
                    v.search_results_state
                },
                ..v
            },
            ActionView::Nothing,
        ),
        ApiResult::VersionsSuccess(versions) => (
            AppView {
                modpack_versions: versions@,
                current_screen: CurrentScreen::ModpackVersions,
                modpack_version_list_state: Some(0),
                show_popup: false,
                is_loading: false,
                ..v
            },
            ActionView::Nothing,
        ),
        ApiResult::InstallSuccess { name, id, version, memory, java, loader } => (
            AppView {
                popup_message: "'"@ + name@ + "' installed successfully!"@,
                is_loading: false,
                ..v
            }.add_instance(name@, id@, version@, memory, java@, loader@),
            ActionView::SaveInstances,
        ),
        ApiResult::Error(e) => (
            AppView { popup_message: "Error: "@ + e@, show_popup: true, is_loading: false, ..v },
            ActionView::Nothing,
        ),
        ApiResult::GameExited => (
            AppView { popup_message: "Game exited."@, show_popup: true, is_loading: false, ..v },
            ActionView::Nothing,
        ),
        ApiResult::AuthCode(code, uri) => (
            AppView {
                auth_state: AuthStateView::WaitingForCode(code@, uri@),
                show_popup: false,
                is_loading: false,
                ..v
            },
            ActionView::Nothing,
        ),
        ApiResult::AuthSuccess(name, uuid, token) => (
            AppView {
                auth_state: AuthStateView::Success(name@),
                show_popup: false,
                is_loading: false,
                ..with_auth(
                    v,
                    AuthDataView {
                        username: name@,
                        uuid: uuid@,
                        access_token: token@,
                        ..v.config.auth
                    },
                )
            },
            ActionView::SaveConfig,
        ),
        ApiResult::AuthError(e) => (
            AppView { auth_state: AuthStateView::Error(e@), show_popup: false, is_loading: false, ..v },
            ActionView::Nothing,
        ),
    }
}

fn results_from_hits(hits: Vec<SearchResult>) -> (r: Vec<ModpackResult>)
    ensures
        result_views(r@) == hit_views(hits@),
{
    let mut r: Vec<ModpackResult> = Vec::new();
    let mut rest = hits;
    let n = rest.len();
    let mut i: usize = 0;
    assert(hits@.skip(0) =~= hits@);
    while i < n
        invariant
            n == hits@.len(),
            i <= n,
            rest@ == hits@.skip(i as int),
            result_views(r@) == hit_views(hits@.take(i as int)),
        decreases n - i,
    {
        let h = rest.remove(0);
        assert(h == hits@[i as int]);
        assert(rest@ =~= hits@.skip(i + 1));
        let SearchResult { title, slug, description, author, downloads, project_type: _, project_id } = h;
        let m = ModpackResult { title, slug, description, author, downloads, project_id };
        let ghost before = r@;
        r.push(m);
        assert(result_views(r@) =~= result_views(before).push(m@));
        assert(hit_views(hits@.take(i + 1)) =~= hit_views(hits@.take(i as int)).push(hit_view(h)));
        i = i + 1;
    }
    assert(hits@.take(n as int) =~= hits@);
    r
}

/// Handles the reply of background work: updates the state and names the
/// saving to do.
#[verifier::rlimit(60)]
pub fn handle_api_result(app: &mut App, result: ApiResult) -> (a: Action)
    ensures
        (final(app)@, a@) == api_result_spec(old(app)@, result),
{
    match result {
        ApiResult::VersionManifestLoaded(manifest) => {
            app.available_versions = release_version_ids(&manifest);
            app.manifest = Some(manifest);
            assert(app@ =~= api_result_spec(old(app)@, result).0);
            Action::Nothing
        },
        ApiResult::SearchSuccess(hits) => {
            let nonempty = hits.len() > 0;
            app.modpack_results = results_from_hits(hits);
            if nonempty {
                app.search_results_state.select(Some(0));
            }
            assert(app@ =~= api_result_spec(old(app)@, result).0);
            Action::Nothing
        },
        ApiResult::VersionsSuccess(versions) => {
            app.modpack_versions = versions;
            app.current_screen = CurrentScreen::ModpackVersions;
            app.modpack_version_list_state.select(Some(0));
            app.show_popup = false;
            app.is_loading = false;
            assert(app@ =~= api_result_spec(old(app)@, result).0);
            Action::Nothing
        },
        ApiResult::InstallSuccess { name, id, version, memory, java, loader } => {
            app.popup_message = concat3("'", name.as_str(), "' installed successfully!");
            app.is_loading = false;
            let ghost mid = app@;
            assert(mid =~= (AppView {
                popup_message: "'"@ + name@ + "' installed successfully!"@,
                is_loading: false,
                ..old(app)@
            }));
            app.add_instance(name, id, version, memory, java, loader);
            Action::SaveInstances
        },
        ApiResult::Error(err) => {
            app.popup_message = concat2("Error: ", err.as_str());
            app.show_popup = true;
            app.is_loading = false;
            assert(app@ =~= api_result_spec(old(app)@, result).0);
            Action::Nothing
        },
        ApiResult::GameExited => {
            app.popup_message = text("Game exited.");
            app.show_popup = true;
            app.is_loading = false;
            assert(app@ =~= api_result_spec(old(app)@, result).0);
            Action::Nothing
        },
        ApiResult::AuthCode(code, uri) => {
            app.auth_state = AuthState::WaitingForCode(code, uri);
            app.show_popup = false;
            app.is_loading = false;
            assert(app@ =~= api_result_spec(old(app)@, result).0);
            Action::Nothing
        },
        ApiResult::AuthSuccess(name, uuid, token) => {
            app.config.auth.username = name.clone();
            app.config.auth.uuid = uuid;
            app.config.auth.access_token = token;
            app.auth_state = AuthState::Success(name);
            app.show_popup = false;
            app.is_loading = false;
            assert(app@ =~= api_result_spec(old(app)@, result).0);
            Action::SaveConfig
        },
        ApiResult::AuthError(err) => {
            app.auth_state = AuthState::Error(err);
            app.show_popup = false;
            app.is_loading = false;
            assert(app@ =~= api_result_spec(old(app)@, result).0);
            Action::Nothing
        },
    }
}

/// The next step of installing a modpack, decided from the outcome of the
/// step before: install the base game, then the Fabric loader where the
/// pack names one, then report.
pub enum ModpackStep {
    InstallBase { game_version: String, loader_version: String },
    InstallFabric { game_version: String, loader_version: String },
    Finish(ApiResult),
}

/// After the pack's files are downloaded: install the game version it names,
/// or report the failed download.
pub fn modpack_after_download(download: Result<(String, String), String>) -> (s: ModpackStep)
    ensures
        match download {
            Ok((gv, lv)) => s matches ModpackStep::InstallBase { game_version, loader_version }
                && game_version@ == gv@ && loader_version@ == lv@,
            Err(e) => s matches ModpackStep::Finish(ApiResult::Error(m))
                && m@ == "Modpack download failed: "@ + e@,
        },
{
    match download {
        Ok((game_version, loader_version)) => ModpackStep::InstallBase { game_version, loader_version },
        Err(e) => ModpackStep::Finish(ApiResult::Error(concat2("Modpack download failed: ", e.as_str()))),
    }
}

/// After the base game is installed: install Fabric where the pack names a
/// loader version, else report a Vanilla instance with 4096 MB; or report
/// the failed install.
pub fn modpack_after_base(
    name: String,
    folder_name: String,
    game_version: String,
    loader_version: String,
    installed: Result<(), String>,
) -> (s: ModpackStep)
    ensures
        installed matches Err(e) ==> (s matches ModpackStep::Finish(ApiResult::Error(m))
            && m@ == "Base game install failed: "@ + e@),
        installed is Ok && loader_version@.len() > 0 ==> (s matches ModpackStep::InstallFabric {
            game_version: gv,
            loader_version: lv,
        } && gv@ == game_version@ && lv@ == loader_version@),
        installed is Ok && loader_version@.len() == 0 ==> (s matches ModpackStep::Finish(
            ApiResult::InstallSuccess { name: n, id, version, memory, java, loader },
        ) && n@ == name@ && id@ == folder_name@ && version@ == game_version@ && memory == 4096
            && java@ == "java"@ && loader@ == "Vanilla"@),
{
    match installed {
        Err(e) => ModpackStep::Finish(ApiResult::Error(concat2("Base game install failed: ", e.as_str()))),
        Ok(()) => {
            if loader_version.as_str().is_empty() {
                ModpackStep::Finish(ApiResult::InstallSuccess {
                    name,
                    id: folder_name,
                    version: game_version,
                    memory: 4096,
                    java: text("java"),
                    loader: text("Vanilla"),
                })
            } else {
                ModpackStep::InstallFabric { game_version, loader_version }
            }
        },
    }
}

/// After the Fabric loader is installed: report a Fabric instance with
/// 6144 MB, or the failed install.
pub fn modpack_after_fabric(
    name: String,
    folder_name: String,
    game_version: String,
    installed: Result<(), String>,
) -> (s: ModpackStep)
    ensures
        installed matches Err(e) ==> (s matches ModpackStep::Finish(ApiResult::Error(m))
            && m@ == "Fabric install failed: "@ + e@),
        installed is Ok ==> (s matches ModpackStep::Finish(
            ApiResult::InstallSuccess { name: n, id, version, memory, java, loader },
        ) && n@ == name@ && id@ == folder_name@ && version@ == game_version@ && memory == 6144
            && java@ == "java"@ && loader@ == "Fabric"@),
{
    match installed {
        Err(e) => ModpackStep::Finish(ApiResult::Error(concat2("Fabric install failed: ", e.as_str()))),
        Ok(()) => ModpackStep::Finish(ApiResult::InstallSuccess {
            name,
            id: folder_name,
            version: game_version,
            memory: 6144,
            java: text("java"),
            loader: text("Fabric"),
        }),
    }
}

} // verus!
