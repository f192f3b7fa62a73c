//! The launcher's screen state and the operations on it.
use vstd::prelude::*;
use crate::text::{decimal, text, u32_to_string, same_text, views};
use crate::config::{AuthData, AuthDataView, AuthType, Config, ConfigView};
use crate::instance::{Instance, InstanceView, instance_views};
use crate::modrinth::{ProjectVersion, SearchResult};
use crate::versions::VersionManifest;

verus! {

#[derive(Debug, Clone, Copy, PartialEq, Eq, Structural)]
pub enum CurrentScreen {
    Dashboard,
    Instances,
    ModpackSearch,
    ModpackVersions,
    Settings,
    NewInstance,
}

/// A modpack found by a search.
#[derive(Debug, Clone)]
pub struct ModpackResult {
    pub title: String,
    pub slug: String,
    pub description: String,
    pub author: String,
    pub downloads: u64,
    pub project_id: String,
}

#[derive(Debug, Clone, Copy, PartialEq, Eq, Structural)]
pub enum NewInstanceField {
    Name,
    Memory,
    JavaPath,
    Version,
}

#[derive(Debug, Clone, Copy, PartialEq, Eq, Structural)]
pub enum SettingsField {
    AuthType,
    Username,
    Password,
    LoginButton,
}

#[derive(Debug, Clone)]
pub enum AuthState {
    LoggedOut,
    Authenticating,
    /// User code and verification URI of a device-code login.
    WaitingForCode(String, String),
    /// Logged in, with the user name.
    Success(String),
    Error(String),
}

#[derive(Debug, Clone, Copy, PartialEq, Eq, Structural)]
pub enum InputMode {
    Normal,
    Editing,
}

/// The selected row of a list or table.
#[derive(Debug, Clone, Copy)]
pub struct ListSelection {
    pub selected: Option<usize>,
}

impl ListSelection {
    pub fn none() -> (r: Self)
        ensures
            r.selected is None,
    {
        ListSelection { selected: None }
    }

    pub fn select(&mut self, index: Option<usize>)
        ensures
            final(self).selected == index,
    {
        self.selected = index;
    }

    pub fn selected(&self) -> (r: Option<usize>)
        ensures
            r == self.selected,
    {
        self.selected
    }
}

/// The state of the launcher between two events.
#[derive(Debug)]
pub struct App {
    pub running: bool,
    pub current_screen: CurrentScreen,
    pub instances: Vec<Instance>,
    pub modpack_results: Vec<ModpackResult>,
    pub modpack_versions: Vec<ProjectVersion>,
    pub selected_modpack_name: String,
    pub available_versions: Vec<String>,
    pub manifest: Option<VersionManifest>,
    pub search_query: String,
    pub instance_list_state: ListSelection,
    pub search_results_state: ListSelection,
    pub modpack_version_list_state: ListSelection,
    pub input_mode: InputMode,
    pub show_popup: bool,
    pub popup_message: String,
    pub is_loading: bool,
    pub confirm_delete: bool,
    pub new_instance_name: String,
    pub new_instance_memory: String,
    pub new_instance_java: String,
    pub new_instance_version_state: ListSelection,
    pub new_instance_focus: NewInstanceField,
    pub editing_instance_index: Option<usize>,
    pub config: Config,
    pub auth_state: AuthState,
    pub temp_password: String,
    pub settings_focus: SettingsField,
}

// ---------------------------------------------------------------------------
// Views
// ---------------------------------------------------------------------------

#[verifier::ext_equal]
pub struct ModpackResultView {
    pub title: Seq<char>,
    pub slug: Seq<char>,
    pub description: Seq<char>,
    pub author: Seq<char>,
    pub downloads: u64,
    pub project_id: Seq<char>,
}

impl View for ModpackResult {
    type V = ModpackResultView;

    open spec fn view(&self) -> ModpackResultView {
        ModpackResultView {
            title: self.title@,
            slug: self.slug@,
            description: self.description@,
            author: self.author@,
            downloads: self.downloads,
            project_id: self.project_id@,
        }
    }
}

pub enum AuthStateView {
    LoggedOut,
    Authenticating,
    WaitingForCode(Seq<char>, Seq<char>),
    Success(Seq<char>),
    Error(Seq<char>),
}

impl View for AuthState {
    type V = AuthStateView;

    open spec fn view(&self) -> AuthStateView {
        match self {
            AuthState::LoggedOut => AuthStateView::LoggedOut,
            AuthState::Authenticating => AuthStateView::Authenticating,
            AuthState::WaitingForCode(c, u) => AuthStateView::WaitingForCode(c@, u@),
            AuthState::Success(n) => AuthStateView::Success(n@),
            AuthState::Error(e) => AuthStateView::Error(e@),
        }
    }
}

#[verifier::ext_equal]
pub struct AppView {
    pub running: bool,
    pub current_screen: CurrentScreen,
    pub instances: Seq<InstanceView>,
    pub modpack_results: Seq<ModpackResultView>,
    pub modpack_versions: Seq<ProjectVersion>,
    pub selected_modpack_name: Seq<char>,
    pub available_versions: Seq<Seq<char>>,
    pub manifest: Option<VersionManifest>,
    pub search_query: Seq<char>,
    pub instance_list_state: Option<usize>,
    pub search_results_state: Option<usize>,
    pub modpack_version_list_state: Option<usize>,
    pub input_mode: InputMode,
    pub show_popup: bool,
    pub popup_message: Seq<char>,
    pub is_loading: bool,
    pub confirm_delete: bool,
    pub new_instance_name: Seq<char>,
    pub new_instance_memory: Seq<char>,
    pub new_instance_java: Seq<char>,
    pub new_instance_version_state: Option<usize>,
    pub new_instance_focus: NewInstanceField,
    pub editing_instance_index: Option<usize>,
    pub config: ConfigView,
    pub auth_state: AuthStateView,
    pub temp_password: Seq<char>,
    pub settings_focus: SettingsField,
}

pub open spec fn result_views(s: Seq<ModpackResult>) -> Seq<ModpackResultView> {
    s.map_values(|r: ModpackResult| r@)
}

impl View for App {
    type V = AppView;

    open spec fn view(&self) -> AppView {
        AppView {
            running: self.running,
            current_screen: self.current_screen,
            instances: instance_views(self.instances@),
            modpack_results: result_views(self.modpack_results@),
            modpack_versions: self.modpack_versions@,
            selected_modpack_name: self.selected_modpack_name@,
            available_versions: views(self.available_versions@),
            manifest: self.manifest,
            search_query: self.search_query@,
            instance_list_state: self.instance_list_state.selected,
            search_results_state: self.search_results_state.selected,
            modpack_version_list_state: self.modpack_version_list_state.selected,
            input_mode: self.input_mode,
            show_popup: self.show_popup,
            popup_message: self.popup_message@,
            is_loading: self.is_loading,
            confirm_delete: self.confirm_delete,
            new_instance_name: self.new_instance_name@,
            new_instance_memory: self.new_instance_memory@,
            new_instance_java: self.new_instance_java@,
            new_instance_version_state: self.new_instance_version_state.selected,
            new_instance_focus: self.new_instance_focus,
            editing_instance_index: self.editing_instance_index,
            config: self.config@,
            auth_state: self.auth_state@,
            temp_password: self.temp_password@,
            settings_focus: self.settings_focus,
        }
    }
}

// ---------------------------------------------------------------------------
// What each operation does, on views
// ---------------------------------------------------------------------------

/// The position of the first occurrence of `x`.
pub open spec fn first_index(s: Seq<Seq<char>>, x: Seq<char>) -> Option<int>
    decreases s.len(),
{
    if s.len() == 0 {
        None
    } else if s[0] == x {
        Some(0)
    } else {
        match first_index(s.drop_first(), x) {
            Some(i) => Some(i + 1),
            None => None,
        }
    }
}

/// The instances whose id differs from `id`, in order.
pub open spec fn without_id(s: Seq<InstanceView>, id: Seq<char>) -> Seq<InstanceView>
    decreases s.len(),
{
    if s.len() == 0 {
        Seq::empty()
    } else {
        let r = without_id(s.drop_last(), id);
        if s.last().id == id {
            r
        } else {
            r.push(s.last())
        }
    }
}

/// The selection after moving down a list of `len` rows, wrapping around.
pub open spec fn next_index(sel: Option<usize>, len: nat) -> Option<usize> {
    match sel {
        Some(i) => Some(((i + 1) % (len as int)) as usize),
        None => Some(0),
    }
}

/// The selection after moving up a list of `len` rows, wrapping around.
pub open spec fn previous_index(sel: Option<usize>, len: nat) -> Option<usize> {
    match sel {
        Some(i) => Some(if i == 0 { (len - 1) as usize } else { (i - 1) as usize }),
        None => Some(0),
    }
}

impl AppView {
    /// The state before anything is loaded.
    pub open spec fn initial(self) -> bool {
        &&& self.running
        &&& self.current_screen == CurrentScreen::Dashboard
        &&& self.instances.len() == 0
        &&& self.modpack_results.len() == 0
        &&& self.modpack_versions.len() == 0
        &&& self.selected_modpack_name.len() == 0
        &&& self.available_versions.len() == 0
        &&& self.manifest is None
        &&& self.search_query.len() == 0
        &&& self.instance_list_state is None
        &&& self.search_results_state is None
        &&& self.modpack_version_list_state is None
        &&& self.input_mode == InputMode::Normal
        &&& !self.show_popup
        &&& self.popup_message.len() == 0
        &&& !self.is_loading
        &&& !self.confirm_delete
        &&& self.new_instance_name.len() == 0
        &&& self.new_instance_memory == "4096"@
        &&& self.new_instance_java == "java"@
        &&& self.new_instance_version_state is None
        &&& self.new_instance_focus == NewInstanceField::Name
        &&& self.editing_instance_index is None
        &&& self.auth_state == AuthStateView::LoggedOut
        &&& self.temp_password.len() == 0
        &&& self.settings_focus == SettingsField::AuthType
    }

    /// The instance selection, if any, points into the instance list.
    pub open spec fn instance_selection_valid(self) -> bool {
        self.instance_list_state matches Some(i) ==> i < self.instances.len()
    }

    /// No list selection is at the largest index, so moving down never
    /// overflows.
    pub open spec fn selections_bounded(self) -> bool {
        &&& self.instance_list_state != Some(usize::MAX)
        &&& self.search_results_state != Some(usize::MAX)
        &&& self.modpack_version_list_state != Some(usize::MAX)
        &&& self.new_instance_version_state != Some(usize::MAX)
    }

    /// The state after loading the saved instances and configuration. A saved
    /// account counts as logged in when it has a user name and a token other
    /// than `0`; the first instance is selected when there is one.
    pub open spec fn loaded(self, instances: Seq<InstanceView>, config: ConfigView) -> AppView {
        AppView {
            instances,
            config,
            auth_state: if config.auth.username.len() > 0 && config.auth.access_token != "0"@ {
                AuthStateView::Success(config.auth.username)
            } else {
                self.auth_state
            },
            instance_list_state: if instances.len() > 0 {
                Some(0)
            } else {
                self.instance_list_state
            },
            ..self
        }
    }

    pub open spec fn quit(self) -> AppView {
        AppView { running: false, ..self }
    }

    pub open spec fn close_popup(self) -> AppView {
        AppView { show_popup: false, is_loading: false, ..self }
    }

    /// An empty form for a new instance: 4096 MB, `java`, first version.
    pub open spec fn open_new_instance(self) -> AppView {
        AppView {
            current_screen: CurrentScreen::NewInstance,
            editing_instance_index: None,
            new_instance_name: Seq::empty(),
            new_instance_memory: "4096"@,
            new_instance_java: "java"@,
            new_instance_focus: NewInstanceField::Name,
            new_instance_version_state: Some(0),
            ..self
        }
    }

    /// The form filled with the selected instance, its version selected when
    /// it is among the available versions (else the first one).
    pub open spec fn open_edit_instance(self) -> AppView {
        match self.instance_list_state {
            Some(index) => if index < self.instances.len() {
                let inst = self.instances[index as int];
                AppView {
                    current_screen: CurrentScreen::NewInstance,
                    editing_instance_index: Some(index),
                    new_instance_name: inst.name,
                    new_instance_memory: decimal(inst.max_memory as nat),
                    new_instance_java: inst.java_path,
                    new_instance_version_state: match first_index(
                        self.available_versions,
                        inst.version,
                    ) {
                        Some(p) => Some(p as usize),
                        None => Some(0),
                    },
                    new_instance_focus: NewInstanceField::Name,
                    ..self
                }
            } else {
                self
            },
            None => self,
        }
    }

    /// The instance list without instances of the same id, plus the new
    /// instance at the end, selected; the instance screen is shown.
    pub open spec fn add_instance(
        self,
        name: Seq<char>,
        id: Seq<char>,
        version: Seq<char>,
        memory: u32,
        java: Seq<char>,
        loader: Seq<char>,
    ) -> AppView {
        let instances = without_id(self.instances, id).push(
            InstanceView {
                name,
                id,
                version,
                loader,
                max_memory: memory,
                java_path: java,
                played_last: None,
            },
        );
        AppView {
            instances,
            current_screen: CurrentScreen::Instances,
            instance_list_state: Some((instances.len() - 1) as usize),
            ..self
        }
    }

    /// New name, memory and Java path for the instance at `index` (if there
    /// is one); back to the instance screen.
    pub open spec fn update_instance(self, index: usize, name: Seq<char>, memory: u32, java: Seq<char>) -> AppView {
        AppView {
            instances: if index < self.instances.len() {
                self.instances.update(
                    index as int,
                    InstanceView {
                        name,
                        max_memory: memory,
                        java_path: java,
                        ..self.instances[index as int]
                    },
                )
            } else {
                self.instances
            },
            current_screen: CurrentScreen::Instances,
            editing_instance_index: None,
            ..self
        }
    }

    /// Whether the delete command removes an instance.
    pub open spec fn deletes_instance(self) -> bool {
        self.instance_list_state matches Some(i) && i < self.instances.len()
    }

    /// Removes the selected instance; the selection stays at the same place,
    /// or on the new last instance, or is cleared when none is left.
    pub open spec fn delete_selected_instance(self) -> AppView {
        if self.deletes_instance() {
            let i = self.instance_list_state->0;
            let instances = self.instances.remove(i as int);
            AppView {
                instances,
                instance_list_state: if instances.len() == 0 {
                    None
                } else if i < instances.len() {
                    Some(i)
                } else {
                    Some((instances.len() - 1) as usize)
                },
                ..self
            }
        } else {
            self
        }
    }

    pub open spec fn cycle_new_instance_focus(self) -> AppView {
        AppView {
            new_instance_focus: match self.new_instance_focus {
                NewInstanceField::Name => NewInstanceField::Memory,
                NewInstanceField::Memory => NewInstanceField::JavaPath,
                NewInstanceField::JavaPath => NewInstanceField::Version,
                NewInstanceField::Version => NewInstanceField::Name,
            },
            ..self
        }
    }

    /// Dashboard, Instances, Modpacks, Settings, round; forms go back to
    /// their tab. Leaving the modpack search ends typing.
    pub open spec fn next_tab(self) -> AppView {
        match self.current_screen {
            CurrentScreen::Dashboard => AppView { current_screen: CurrentScreen::Instances, ..self },
            CurrentScreen::Instances => AppView { current_screen: CurrentScreen::ModpackSearch, ..self },
            CurrentScreen::ModpackSearch => AppView {
                current_screen: CurrentScreen::Settings,
                input_mode: InputMode::Normal,
                ..self
            },
            CurrentScreen::Settings => AppView { current_screen: CurrentScreen::Dashboard, ..self },
            CurrentScreen::NewInstance => AppView { current_screen: CurrentScreen::Instances, ..self },
            CurrentScreen::ModpackVersions => AppView {
                current_screen: CurrentScreen::ModpackSearch,
                ..self
            },
        }
    }

    /// The tabs in the other direction. Leaving the settings ends typing.
    pub open spec fn previous_tab(self) -> AppView {
        match self.current_screen {
            CurrentScreen::Dashboard => AppView { current_screen: CurrentScreen::Settings, ..self },
            CurrentScreen::Instances => AppView { current_screen: CurrentScreen::Dashboard, ..self },
            CurrentScreen::ModpackSearch => AppView { current_screen: CurrentScreen::Instances, ..self },
            CurrentScreen::Settings => AppView {
                current_screen: CurrentScreen::ModpackSearch,
                input_mode: InputMode::Normal,
                ..self
            },
            CurrentScreen::NewInstance => AppView { current_screen: CurrentScreen::Instances, ..self },
            CurrentScreen::ModpackVersions => AppView {
                current_screen: CurrentScreen::ModpackSearch,
                ..self
            },
        }
    }

    /// Moves the selection of the current list down, wrapping around; on the
    /// form only while the version list has the focus. Empty lists stay.
    pub open spec fn next_item(self) -> AppView {
        match self.current_screen {
            CurrentScreen::Instances => if self.instances.len() == 0 {
                self
            } else {
                AppView {
                    instance_list_state: next_index(self.instance_list_state, self.instances.len()),
                    ..self
                }
            },
            CurrentScreen::ModpackSearch => if self.modpack_results.len() == 0 {
                self
            } else {
                AppView {
                    search_results_state: next_index(
                        self.search_results_state,
                        self.modpack_results.len(),
                    ),
                    ..self
                }
            },
            CurrentScreen::ModpackVersions => if self.modpack_versions.len() == 0 {
                self
            } else {
                AppView {
                    modpack_version_list_state: next_index(
                        self.modpack_version_list_state,
                        self.modpack_versions.len(),
                    ),
                    ..self
                }
            },
            CurrentScreen::NewInstance => if self.new_instance_focus == NewInstanceField::Version
                && self.available_versions.len() > 0 {
                AppView {
                    new_instance_version_state: next_index(
                        self.new_instance_version_state,
                        self.available_versions.len(),
                    ),
                    ..self
                }
            } else {
                self
            },
            _ => self,
        }
    }

    /// Moves the selection of the current list up, wrapping around.
    pub open spec fn previous_item(self) -> AppView {
        match self.current_screen {
            CurrentScreen::Instances => if self.instances.len() == 0 {
                self
            } else {
                AppView {
                    instance_list_state: previous_index(self.instance_list_state, self.instances.len()),
                    ..self
                }
            },
            CurrentScreen::ModpackSearch => if self.modpack_results.len() == 0 {
                self
            } else {
                AppView {
                    search_results_state: previous_index(
                        self.search_results_state,
                        self.modpack_results.len(),
                    ),
                    ..self
                }
            },
            CurrentScreen::ModpackVersions => if self.modpack_versions.len() == 0 {
                self
            } else {
                AppView {
                    modpack_version_list_state: previous_index(
                        self.modpack_version_list_state,
                        self.modpack_versions.len(),
                    ),
                    ..self
                }
            },
            CurrentScreen::NewInstance => if self.new_instance_focus == NewInstanceField::Version
                && self.available_versions.len() > 0 {
                AppView {
                    new_instance_version_state: previous_index(
                        self.new_instance_version_state,
                        self.available_versions.len(),
                    ),
                    ..self
                }
            } else {
                self
            },
            _ => self,
        }
    }
}

// ---------------------------------------------------------------------------
// The operations
// ---------------------------------------------------------------------------

fn next_position(sel: Option<usize>, len: usize) -> (r: Option<usize>)
    requires
        len > 0,
        sel != Some(usize::MAX),
    ensures
        r == next_index(sel, len as nat),
        (r matches Some(i) && i < len),
{
    match sel {
        Some(i) => Some((i + 1) % len),
        None => Some(0),
    }
}

fn previous_position(sel: Option<usize>, len: usize) -> (r: Option<usize>)
    requires
        len > 0,
    ensures
        r == previous_index(sel, len as nat),
        (sel matches Some(i) && i < len) ==> (r matches Some(j) && j < len),
        sel is None ==> r == Some(0usize),
{
    match sel {
        Some(i) => Some(if i == 0 { len - 1 } else { i - 1 }),
        None => Some(0),
    }
}

fn position_of(list: &Vec<String>, x: &String) -> (r: Option<usize>)
    ensures
        match first_index(views(list@), x@) {
            Some(p) => r == Some(p as usize),
            None => r is None,
        },
{
    let mut i: usize = 0;
    assert(views(list@).skip(0) =~= views(list@));
    while i < list.len()
        invariant
            i <= list@.len(),
            forall|k: int| 0 <= k < i ==> list@[k]@ != x@,
            match first_index(views(list@), x@) {
                Some(p) => match first_index(views(list@).skip(i as int), x@) {
                    Some(q) => p == q + i,
                    None => false,
                },
                None => first_index(views(list@).skip(i as int), x@) is None,
            },
        decreases list@.len() - i,
    {
        let ghost rest = views(list@).skip(i as int);
        assert(rest.drop_first() =~= views(list@).skip(i + 1));
        assert(rest[0] == list@[i as int]@);
        if list[i] == *x {
            return Some(i);
        }
        i = i + 1;
    }
    assert(views(list@).skip(i as int) =~= Seq::<Seq<char>>::empty());
    None
}

impl Default for App {
    fn default() -> (r: Self)
        ensures
            r@.initial(),
            r.config.is_default(),
    {
        App {
            running: true,
            current_screen: CurrentScreen::Dashboard,
            instances: Vec::new(),
            modpack_results: Vec::new(),
            modpack_versions: Vec::new(),
            selected_modpack_name: String::new(),
            available_versions: Vec::new(),
            manifest: None,
            search_query: String::new(),
            instance_list_state: ListSelection::none(),
            search_results_state: ListSelection::none(),
            modpack_version_list_state: ListSelection::none(),
            input_mode: InputMode::Normal,
            show_popup: false,
            popup_message: String::new(),
            is_loading: false,
            confirm_delete: false,
            new_instance_name: String::new(),
            new_instance_memory: text("4096"),
            new_instance_java: text("java"),
            new_instance_version_state: ListSelection::none(),
            new_instance_focus: NewInstanceField::Name,
            editing_instance_index: None,
            config: Config::default(),
            auth_state: AuthState::LoggedOut,
            temp_password: String::new(),
            settings_focus: SettingsField::AuthType,
        }
    }
}

impl App {
    /// The launcher after the saved instances and configuration are read.
    pub fn new(instances: Vec<Instance>, config: Config) -> (r: Self)
        ensures
            exists|d: AppView| d.initial() && r@ == d.loaded(instance_views(instances@), config@),
            r@.instance_selection_valid(),
            r@.selections_bounded(),
    {
        let mut app = App::default();
        let ghost d = app@;
        app.instances = instances;
        app.config = config;
        if !app.config.auth.username.as_str().is_empty()
            && !same_text(app.config.auth.access_token.as_str(), "0") {
            app.auth_state = AuthState::Success(app.config.auth.username.clone());
        }
        if app.instances.len() > 0 {
            app.instance_list_state.select(Some(0));
        }
        assert(app@ =~= d.loaded(instance_views(instances@), config@));
        app
    }

    pub fn quit(&mut self)
        ensures
            final(self)@ == old(self)@.quit(),
    {
        self.running = false;
        assert(self@ =~= old(self)@.quit());
    }

    pub fn close_popup(&mut self)
        ensures
            final(self)@ == old(self)@.close_popup(),
    {
        self.show_popup = false;
        self.is_loading = false;
        assert(self@ =~= old(self)@.close_popup());
    }

    pub fn open_new_instance(&mut self)
        ensures
            final(self)@ == old(self)@.open_new_instance(),
    {
        self.current_screen = CurrentScreen::NewInstance;
        self.editing_instance_index = None;
        self.new_instance_name = String::new();
        self.new_instance_memory = text("4096");
        self.new_instance_java = text("java");
        self.new_instance_focus = NewInstanceField::Name;
        self.new_instance_version_state.select(Some(0));
        assert(self@ =~= old(self)@.open_new_instance());
    }

    pub fn open_edit_instance(&mut self)
        ensures
            final(self)@ == old(self)@.open_edit_instance(),
    {
        if let Some(index) = self.instance_list_state.selected() {
            if index < self.instances.len() {
                let ghost inst = self@.instances[index as int];
                assert(inst == self.instances@[index as int]@);
                self.current_screen = CurrentScreen::NewInstance;
                self.editing_instance_index = Some(index);
                self.new_instance_name = self.instances[index].name.clone();
                self.new_instance_memory = u32_to_string(self.instances[index].max_memory);
                self.new_instance_java = self.instances[index].java_path.clone();
                let pos = position_of(&self.available_versions, &self.instances[index].version);
                match pos {
                    Some(p) => self.new_instance_version_state.select(Some(p)),
                    None => self.new_instance_version_state.select(Some(0)),
                }
                self.new_instance_focus = NewInstanceField::Name;
                assert(self@ =~= old(self)@.open_edit_instance());
            }
        }
    }

    pub fn add_instance(
        &mut self,
        name: String,
        id: String,
        version: String,
        memory: u32,
        java: String,
        loader: String,
    )
        ensures
            final(self)@ == old(self)@.add_instance(name@, id@, version@, memory, java@, loader@),
    {
        let mut rest: Vec<Instance> = Vec::new();
        std::mem::swap(&mut rest, &mut self.instances);
        let ghost all = rest@;
        let mut kept: Vec<Instance> = Vec::new();
        let n = rest.len();
        let mut i: usize = 0;
        assert(all.skip(0) =~= all);
        while i < n
            invariant
                n == all.len(),
                i <= n,
                rest@ == all.skip(i as int),
                instance_views(kept@) == without_id(instance_views(all.take(i as int)), id@),
            decreases n - i,
        {
            let inst = rest.remove(0);
            assert(inst == all[i as int]);
            assert(rest@ =~= all.skip(i + 1));
            assert(instance_views(all.take(i + 1)).drop_last() =~= instance_views(all.take(i as int)));
            assert(instance_views(all.take(i + 1)).last() == inst@);
            if !(inst.id == id) {
                let ghost before = kept@;
                kept.push(inst);
                assert(instance_views(kept@) =~= instance_views(before).push(inst@));
            }
            i = i + 1;
        }
        assert(all.take(n as int) =~= all);
        let ghost kept_view = kept@;
        let new_instance = Instance {
            name,
            id,
            version,
            loader,
            max_memory: memory,
            java_path: java,
            played_last: None,
        };
        kept.push(new_instance);
        assert(instance_views(kept@) =~= instance_views(kept_view).push(new_instance@));
        self.instances = kept;
        self.current_screen = CurrentScreen::Instances;
        let last = self.instances.len() - 1;
        self.instance_list_state.select(Some(last));
        assert(all == old(self).instances@);
        assert(instance_views(all) == old(self)@.instances);
        assert(self@.instances =~= old(self)@.add_instance(name@, id@, version@, memory, java@, loader@).instances);
        assert(self@ =~= old(self)@.add_instance(name@, id@, version@, memory, java@, loader@));
    }

    pub fn update_instance(&mut self, index: usize, name: String, memory: u32, java: String)
        ensures
            final(self)@ == old(self)@.update_instance(index, name@, memory, java@),
    {
        if index < self.instances.len() {
            let mut inst = self.instances[index].duplicate();
            inst.name = name;
            inst.max_memory = memory;
            inst.java_path = java;
            let ghost before = self.instances@;
            self.instances.set(index, inst);
            assert(instance_views(self.instances@) =~= instance_views(before).update(
                index as int,
                inst@,
            ));
        }
        self.current_screen = CurrentScreen::Instances;
        self.editing_instance_index = None;
        assert(self@ =~= old(self)@.update_instance(index, name@, memory, java@));
    }

    /// Removes the selected instance; true when one was removed (and the
    /// instance list needs saving).
    pub fn delete_selected_instance(&mut self) -> (deleted: bool)
        ensures
            deleted == old(self)@.deletes_instance(),
            final(self)@ == old(self)@.delete_selected_instance(),
    {
        if let Some(index) = self.instance_list_state.selected() {
            if index < self.instances.len() {
                let ghost before = self.instances@;
                self.instances.remove(index);
                assert(instance_views(self.instances@) =~= instance_views(before).remove(index as int));
                let new_sel = if self.instances.len() == 0 {
                    None
                } else if index < self.instances.len() {
                    Some(index)
                } else {
                    Some(self.instances.len() - 1)
                };
                self.instance_list_state.select(new_sel);
                assert(self@ =~= old(self)@.delete_selected_instance());
                return true;
            }
        }
        false
    }

    pub fn cycle_new_instance_focus(&mut self)
        ensures
            final(self)@ == old(self)@.cycle_new_instance_focus(),
    {
        self.new_instance_focus = match self.new_instance_focus {
            NewInstanceField::Name => NewInstanceField::Memory,
            NewInstanceField::Memory => NewInstanceField::JavaPath,
            NewInstanceField::JavaPath => NewInstanceField::Version,
            NewInstanceField::Version => NewInstanceField::Name,
        };
        assert(self@ =~= old(self)@.cycle_new_instance_focus());
    }

    pub fn next_tab(&mut self)
        ensures
            final(self)@ == old(self)@.next_tab(),
    {
        self.current_screen = match self.current_screen {
            CurrentScreen::Dashboard => CurrentScreen::Instances,
            CurrentScreen::Instances => CurrentScreen::ModpackSearch,
            CurrentScreen::ModpackSearch => {
                self.input_mode = InputMode::Normal;
                CurrentScreen::Settings
            },
            CurrentScreen::Settings => CurrentScreen::Dashboard,
            CurrentScreen::NewInstance => CurrentScreen::Instances,
            CurrentScreen::ModpackVersions => CurrentScreen::ModpackSearch,
        };
        assert(self@ =~= old(self)@.next_tab());
    }

    pub fn previous_tab(&mut self)
        ensures
            final(self)@ == old(self)@.previous_tab(),
    {
        self.current_screen = match self.current_screen {
            CurrentScreen::Dashboard => CurrentScreen::Settings,
            CurrentScreen::Instances => CurrentScreen::Dashboard,
            CurrentScreen::ModpackSearch => CurrentScreen::Instances,
            CurrentScreen::Settings => {
                self.input_mode = InputMode::Normal;
                CurrentScreen::ModpackSearch
            },
            CurrentScreen::NewInstance => CurrentScreen::Instances,
            CurrentScreen::ModpackVersions => CurrentScreen::ModpackSearch,
        };
        assert(self@ =~= old(self)@.previous_tab());
    }

    pub fn next_item(&mut self)
        requires
            old(self)@.selections_bounded(),
        ensures
            final(self)@ == old(self)@.next_item(),
    {
        match self.current_screen {
            CurrentScreen::Instances => {
                let len = self.instances.len();
                if len == 0 {
                    return;
                }
                let i = next_position(self.instance_list_state.selected(), len);
                self.instance_list_state.select(i);
            },
            CurrentScreen::ModpackSearch => {
                let len = self.modpack_results.len();
                if len == 0 {
                    return;
                }
                let i = next_position(self.search_results_state.selected(), len);
                self.search_results_state.select(i);
            },
            CurrentScreen::ModpackVersions => {
                let len = self.modpack_versions.len();
                if len == 0 {
                    return;
                }
                let i = next_position(self.modpack_version_list_state.selected(), len);
                self.modpack_version_list_state.select(i);
            },
            CurrentScreen::NewInstance => {
                if self.new_instance_focus == NewInstanceField::Version {
                    let len = self.available_versions.len();
                    if len == 0 {
                        return;
                    }
                    let i = next_position(self.new_instance_version_state.selected(), len);
                    self.new_instance_version_state.select(i);
                }
            },
            _ => {},
        }
        assert(self@ =~= old(self)@.next_item());
    }

    pub fn previous_item(&mut self)
        ensures
            final(self)@ == old(self)@.previous_item(),
    {
        match self.current_screen {
            CurrentScreen::Instances => {
                let len = self.instances.len();
                if len == 0 {
                    return;
                }
                let i = previous_position(self.instance_list_state.selected(), len);
                self.instance_list_state.select(i);
            },
            CurrentScreen::ModpackSearch => {
                let len = self.modpack_results.len();
                if len == 0 {
                    return;
                }
                let i = previous_position(self.search_results_state.selected(), len);
                self.search_results_state.select(i);
            },
            CurrentScreen::ModpackVersions => {
                let len = self.modpack_versions.len();
                if len == 0 {
                    return;
                }
                let i = previous_position(self.modpack_version_list_state.selected(), len);
                self.modpack_version_list_state.select(i);
            },
            CurrentScreen::NewInstance => {
                if self.new_instance_focus == NewInstanceField::Version {
                    let len = self.available_versions.len();
                    if len == 0 {
                        return;
                    }
                    let i = previous_position(self.new_instance_version_state.selected(), len);
                    self.new_instance_version_state.select(i);
                }
            },
            _ => {},
        }
        assert(self@ =~= old(self)@.previous_item());
    }
}

} // verus!
