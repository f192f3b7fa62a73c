//! What the screens say: labels, titles, hints and status lines, and the
//! tone each is drawn in. Drawing them is left to the terminal front end.
use vstd::prelude::*;
use vstd::utf8::encode_utf8;
use vstd::string::StringSliceAdditionalSpecFns;
use crate::text::{concat2, concat3, concat4, concat5, decimal, join, join_text, push_char, text, views};
use crate::app::{App, AppView, AuthState, AuthStateView, CurrentScreen, InputMode};
use crate::config::AuthType;
use crate::instance::{Instance, InstanceView};
use crate::modrinth::ProjectVersion;

verus! {

/// The colour role of a piece of text.
#[derive(Debug, Clone, Copy, PartialEq, Eq, Structural)]
pub enum Tone {
    Primary,
    Accent,
    Muted,
    Warning,
    Error,
    Fabric,
    Forge,
}

fn append_decimal64(s: &mut String, n: u64)
    ensures
        final(s)@ == old(s)@ + decimal(n as nat),
    decreases n,
{
    if n >= 10 {
        append_decimal64(s, n / 10);
    }
    let d: u8 = (n % 10) as u8;
    let c = (48u8 + d) as char;
    push_char(s, c);
}

/// `u64::to_string`.
pub fn u64_to_string(n: u64) -> (s: String)
    ensures
        s@ == decimal(n as nat),
{
    let mut s = String::new();
    append_decimal64(&mut s, n);
    s
}

pub open spec fn auth_method_label_of(t: AuthType) -> Seq<char> {
    match t {
        AuthType::Offline => "Offline"@,
        AuthType::Microsoft => "Microsoft"@,
        AuthType::ElyBy => "Ely.by"@,
    }
}

pub fn auth_method_label(t: AuthType) -> (r: String)
    ensures
        r@ == auth_method_label_of(t),
{
    match t {
        AuthType::Offline => text("Offline"),
        AuthType::Microsoft => text("Microsoft"),
        AuthType::ElyBy => text("Ely.by"),
    }
}

/// The account shown in the header.
pub open spec fn header_auth_label_of(v: AppView) -> Seq<char> {
    match v.auth_state {
        AuthStateView::Success(name) => " "@ + name + " ("@ + auth_method_label_of(v.config.auth.auth_type) + ") "@,
        AuthStateView::WaitingForCode(code, _) => " Code: "@ + code + " "@,
        AuthStateView::Authenticating => " Authenticating… "@,
        AuthStateView::Error(_) => " Auth Error "@,
        AuthStateView::LoggedOut => " "@ + v.config.auth.username + " (not logged in) "@,
    }
}

pub fn header_auth_label(app: &App) -> (r: String)
    ensures
        r@ == header_auth_label_of(app@),
{
    match &app.auth_state {
        AuthState::Success(name) => {
            let method = auth_method_label(app.config.auth.auth_type);
            concat5(" ", name.as_str(), " (", method.as_str(), ") ")
        },
        AuthState::WaitingForCode(code, _) => concat3(" Code: ", code.as_str(), " "),
        AuthState::Authenticating => text(" Authenticating… "),
        AuthState::Error(_) => text(" Auth Error "),
        AuthState::LoggedOut => concat3(" ", app.config.auth.username.as_str(), " (not logged in) "),
    }
}

pub open spec fn header_auth_tone_of(v: AppView) -> Tone {
    match v.auth_state {
        AuthStateView::Success(_) => Tone::Primary,
        AuthStateView::Error(_) => Tone::Error,
        AuthStateView::WaitingForCode(_, _) | AuthStateView::Authenticating => Tone::Warning,
        AuthStateView::LoggedOut => Tone::Muted,
    }
}

pub fn header_auth_tone(app: &App) -> (r: Tone)
    ensures
        r == header_auth_tone_of(app@),
{
    match &app.auth_state {
        AuthState::Success(_) => Tone::Primary,
        AuthState::Error(_) => Tone::Error,
        AuthState::WaitingForCode(_, _) | AuthState::Authenticating => Tone::Warning,
        AuthState::LoggedOut => Tone::Muted,
    }
}

/// The busy indicator in the header.
pub fn loading_label(app: &App) -> (r: String)
    ensures
        r@ == (if app@.is_loading { " ⏳ Working… "@ } else { Seq::empty() }),
{
    if app.is_loading {
        text(" ⏳ Working… ")
    } else {
        String::new()
    }
}

/// The key hints at the bottom of each screen.
pub open spec fn footer_hints_of(v: AppView) -> Seq<char> {
    match v.current_screen {
        CurrentScreen::Dashboard => " Tab: Navigate   q: Quit "@,
        CurrentScreen::Instances => " n: New   e: Edit   d: Delete   Enter: Launch   Tab: Switch   q: Quit "@,
        CurrentScreen::ModpackSearch => if v.input_mode == InputMode::Editing {
            " Enter: Search   Esc: Cancel "@
        } else {
            " e: Search   Enter: Select   Tab: Switch   q: Quit "@
        },
        CurrentScreen::ModpackVersions => " Enter: Install   Esc: Back "@,
        CurrentScreen::Settings => " Tab/↑↓: Navigate   ←→: Change Auth   Enter: Save/Login   Esc: Back "@,
        CurrentScreen::NewInstance => " Tab: Next Field   ↑↓: Version   Enter: Install   Esc: Cancel "@,
    }
}

pub fn footer_hints(app: &App) -> (r: String)
    ensures
        r@ == footer_hints_of(app@),
{
    match app.current_screen {
        CurrentScreen::Dashboard => text(" Tab: Navigate   q: Quit "),
        CurrentScreen::Instances => text(
            " n: New   e: Edit   d: Delete   Enter: Launch   Tab: Switch   q: Quit ",
        ),
        CurrentScreen::ModpackSearch => if app.input_mode == InputMode::Editing {
            text(" Enter: Search   Esc: Cancel ")
        } else {
            text(" e: Search   Enter: Select   Tab: Switch   q: Quit ")
        },
        CurrentScreen::ModpackVersions => text(" Enter: Install   Esc: Back "),
        CurrentScreen::Settings => text(
            " Tab/↑↓: Navigate   ←→: Change Auth   Enter: Save/Login   Esc: Back ",
        ),
        CurrentScreen::NewInstance => text(
            " Tab: Next Field   ↑↓: Version   Enter: Install   Esc: Cancel ",
        ),
    }
}

/// A sidebar tab is highlighted on its own screen and on the screens it
/// leads to (the instance form, the version list).
pub open spec fn tab_active_of(current: CurrentScreen, tab: CurrentScreen) -> bool {
    current == tab || (current == CurrentScreen::NewInstance && tab == CurrentScreen::Instances)
        || (current == CurrentScreen::ModpackVersions && tab == CurrentScreen::ModpackSearch)
}

pub fn tab_active(current: CurrentScreen, tab: CurrentScreen) -> (r: bool)
    ensures
        r == tab_active_of(current, tab),
{
    current == tab || (current == CurrentScreen::NewInstance && tab == CurrentScreen::Instances)
        || (current == CurrentScreen::ModpackVersions && tab == CurrentScreen::ModpackSearch)
}

/// A sidebar entry: `> ` before the active tab, two spaces before the others.
pub fn sidebar_label(label: &str, active: bool) -> (r: String)
    ensures
        r@ == (if active { "> "@ } else { "  "@ }) + label@,
{
    if active {
        concat2("> ", label)
    } else {
        concat2("  ", label)
    }
}

/// The title of the content pane.
pub open spec fn content_title_of(v: AppView) -> Seq<char> {
    match v.current_screen {
        CurrentScreen::Dashboard => " Dashboard "@,
        CurrentScreen::Instances => " Instances "@,
        CurrentScreen::ModpackSearch => " Browse Modpacks "@,
        CurrentScreen::ModpackVersions => " Select Version "@,
        CurrentScreen::Settings => " Settings "@,
        CurrentScreen::NewInstance => if v.editing_instance_index is Some {
            " Edit Instance "@
        } else {
            " New Instance "@
        },
    }
}

pub fn content_title(app: &App) -> (r: String)
    ensures
        r@ == content_title_of(app@),
{
    match app.current_screen {
        CurrentScreen::Dashboard => text(" Dashboard "),
        CurrentScreen::Instances => text(" Instances "),
        CurrentScreen::ModpackSearch => text(" Browse Modpacks "),
        CurrentScreen::ModpackVersions => text(" Select Version "),
        CurrentScreen::Settings => text(" Settings "),
        CurrentScreen::NewInstance => if app.editing_instance_index.is_some() {
            text(" Edit Instance ")
        } else {
            text(" New Instance ")
        },
    }
}

/// The account line of the dashboard and its tone.
pub fn dashboard_account(app: &App) -> (r: (String, Tone))
    ensures
        r.0@ == (match app@.auth_state {
            AuthStateView::Success(n) => n,
            _ => "Not logged in"@,
        }),
        r.1 == (if app@.auth_state is Success { Tone::Primary } else { Tone::Muted }),
{
    match &app.auth_state {
        AuthState::Success(n) => (n.clone(), Tone::Primary),
        _ => (text("Not logged in"), Tone::Muted),
    }
}

/// The version count of the dashboard, `Loading…` until the manifest is in.
pub fn dashboard_versions(app: &App) -> (r: String)
    ensures
        r@ == (if app@.available_versions.len() == 0 {
            "Loading…"@
        } else {
            decimal(app@.available_versions.len()) + " releases available"@
        }),
{
    let n = app.available_versions.len();
    if n == 0 {
        text("Loading…")
    } else {
        let count = u64_to_string(n as u64);
        concat2(count.as_str(), " releases available")
    }
}

/// The number of instances, as the dashboard shows it.
pub fn instance_count(app: &App) -> (r: String)
    ensures
        r@ == decimal(app@.instances.len()),
{
    u64_to_string(app.instances.len() as u64)
}

/// The loader tag of an instance and its tone.
pub fn instance_loader_tag(inst: &Instance) -> (r: (String, Tone))
    ensures
        r.0@ == "["@ + inst.loader@ + "]"@,
        r.1 == (if inst.loader@ == "Fabric"@ {
            Tone::Fabric
        } else if inst.loader@ == "Forge"@ {
            Tone::Forge
        } else {
            Tone::Muted
        }),
{
    let tone = if crate::text::same_text(inst.loader.as_str(), "Fabric") {
        Tone::Fabric
    } else if crate::text::same_text(inst.loader.as_str(), "Forge") {
        Tone::Forge
    } else {
        Tone::Muted
    };
    (concat3("[", inst.loader.as_str(), "]"), tone)
}

/// The detail line of an instance: `MC <version>  |  <memory>MB RAM  |  <java>`.
pub fn instance_details(inst: &Instance) -> (r: String)
    ensures
        r@ == "MC "@ + inst.version@ + "  |  "@ + decimal(inst.max_memory as nat) + "MB RAM  |  "@
            + inst.java_path@,
{
    let mem = crate::text::u32_to_string(inst.max_memory);
    let mut r = concat4("MC ", inst.version.as_str(), "  |  ", mem.as_str());
    r.append("MB RAM  |  ");
    r.append(inst.java_path.as_str());
    r
}

/// The text of the search box: the query, or a hint while it is empty and
/// not being typed.
pub open spec fn search_box_text_of(v: AppView) -> Seq<char> {
    if v.search_query.len() > 0 {
        v.search_query
    } else if v.input_mode != InputMode::Editing {
        "Press 'e' to search Modrinth modpacks…"@
    } else {
        Seq::empty()
    }
}

pub fn search_box_text(app: &App) -> (r: String)
    ensures
        r@ == search_box_text_of(app@),
{
    if !app.search_query.as_str().is_empty() {
        app.search_query.clone()
    } else if app.input_mode != InputMode::Editing {
        text("Press 'e' to search Modrinth modpacks…")
    } else {
        String::new()
    }
}

pub fn search_box_title(app: &App) -> (r: String)
    ensures
        r@ == (if app@.input_mode == InputMode::Editing { " Search (typing) "@ } else { " Search "@ }),
{
    if app.input_mode == InputMode::Editing {
        text(" Search (typing) ")
    } else {
        text(" Search ")
    }
}

pub fn empty_results_message(app: &App) -> (r: String)
    ensures
        r@ == (if app@.input_mode == InputMode::Editing {
            "Type and press Enter to search"@
        } else {
            "No results — press 'e' to search"@
        }),
{
    if app.input_mode == InputMode::Editing {
        text("Type and press Enter to search")
    } else {
        text("No results — press 'e' to search")
    }
}

/// The title of the result table: ` <n> Results `.
pub fn results_title(app: &App) -> (r: String)
    ensures
        r@ == " "@ + decimal(app@.modpack_results.len()) + " Results "@,
{
    let n = u64_to_string(app.modpack_results.len() as u64);
    concat3(" ", n.as_str(), " Results ")
}

/// The title line of a modpack version: `v<number>`.
pub fn version_title(v: &ProjectVersion) -> (r: String)
    ensures
        r@ == "v"@ + v.version_number@,
{
    concat2("v", v.version_number.as_str())
}

/// The detail line of a modpack version: its game versions and loaders.
pub fn version_details(v: &ProjectVersion) -> (r: String)
    ensures
        r@ == "MC: "@ + join(views(v.game_versions@), ", "@) + "  |  "@ + join(
            views(v.loaders@),
            ", "@,
        ),
{
    let games = join_text(&v.game_versions, ", ");
    let loaders = join_text(&v.loaders, ", ");
    concat4("MC: ", games.as_str(), "  |  ", loaders.as_str())
}

/// The selected tab of the account method chooser.
pub fn auth_tab_index(t: AuthType) -> (r: usize)
    ensures
        r == (match t {
            AuthType::Offline => 0usize,
            AuthType::Microsoft => 1usize,
            AuthType::ElyBy => 2usize,
        }),
{
    match t {
        AuthType::Offline => 0,
        AuthType::Microsoft => 1,
        AuthType::ElyBy => 2,
    }
}

/// Ely.by logs in with an e-mail address, the offline account with a name.
pub fn username_field_title(app: &App) -> (r: String)
    ensures
        r@ == (if app@.config.auth.auth_type == AuthType::ElyBy { " Email "@ } else { " Username "@ }),
{
    if app.config.auth.auth_type == AuthType::ElyBy {
        text(" Email ")
    } else {
        text(" Username ")
    }
}

/// One `*` per byte of the typed password.
pub fn password_mask(app: &App) -> (r: String)
    ensures
        r@.len() == encode_utf8(app@.temp_password).len(),
        forall|i: int| 0 <= i < r@.len() ==> r@[i] == '*',
{
    let bytes = app.temp_password.as_str().as_bytes();
    let n = bytes.len();
    let mut r = String::new();
    let mut i: usize = 0;
    while i < n
        invariant
            i <= n,
            r@.len() == i,
            forall|k: int| 0 <= k < r@.len() ==> r@[k] == '*',
        decreases n - i,
    {
        push_char(&mut r, '*');
        i = i + 1;
    }
    r
}

/// The status box of the settings and its tone.
pub open spec fn settings_status_of(v: AppView) -> (Seq<char>, Tone) {
    match v.auth_state {
        AuthStateView::LoggedOut => ("Not logged in"@, Tone::Muted),
        AuthStateView::Authenticating => ("Authenticating…"@, Tone::Warning),
        AuthStateView::WaitingForCode(code, uri) => (
            "Visit: "@ + uri + "\nEnter code: "@ + code,
            Tone::Warning,
        ),
        AuthStateView::Success(name) => ("Logged in as: "@ + name, Tone::Primary),
        AuthStateView::Error(e) => ("Error: "@ + e, Tone::Error),
    }
}

pub fn settings_status(app: &App) -> (r: (String, Tone))
    ensures
        (r.0@, r.1) == settings_status_of(app@),
{
    match &app.auth_state {
        AuthState::LoggedOut => (text("Not logged in"), Tone::Muted),
        AuthState::Authenticating => (text("Authenticating…"), Tone::Warning),
        AuthState::WaitingForCode(code, uri) => (
            concat4("Visit: ", uri.as_str(), "\nEnter code: ", code.as_str()),
            Tone::Warning,
        ),
        AuthState::Success(name) => (concat2("Logged in as: ", name.as_str()), Tone::Primary),
        AuthState::Error(e) => (concat2("Error: ", e.as_str()), Tone::Error),
    }
}

/// The offline account is saved, the others log in.
pub fn login_button_label(app: &App) -> (r: String)
    ensures
        r@ == (if app@.config.auth.auth_type == AuthType::Offline { " Save "@ } else { " Login "@ }),
{
    match app.config.auth.auth_type {
        AuthType::Offline => text(" Save "),
        _ => text(" Login "),
    }
}

/// The popup is titled by whether work is still running.
pub fn popup_title(app: &App) -> (r: String)
    ensures
        r@ == (if app@.is_loading { " Working… "@ } else { " Info "@ }),
{
    if app.is_loading {
        text(" Working… ")
    } else {
        text(" Info ")
    }
}

/// The question of the delete dialog, naming the selected instance (the
/// first one when none is selected, nothing when there is none).
pub open spec fn confirm_delete_name_of(v: AppView) -> Seq<char> {
    let i = match v.instance_list_state {
        Some(i) => i as int,
        None => 0,
    };
    if i < v.instances.len() {
        v.instances[i].name
    } else {
        Seq::empty()
    }
}

pub fn confirm_delete_prompt(app: &App) -> (r: String)
    ensures
        r@ == "Delete '"@ + confirm_delete_name_of(app@) + "'?"@,
{
    let i = match app.instance_list_state.selected() {
        Some(i) => i,
        None => 0,
    };
    if i < app.instances.len() {
        assert(app@.instances[i as int] == app.instances@[i as int]@);
        concat3("Delete '", app.instances[i].name.as_str(), "'?")
    } else {
        let r = concat2("Delete '", "'?");
        assert(r@ =~= "Delete '"@ + confirm_delete_name_of(app@) + "'?"@);
        r
    }
}

} // verus!
