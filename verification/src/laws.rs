//! Properties that hold across the launcher's operations.
use vstd::prelude::*;
use crate::app::{
    AppView, CurrentScreen, InputMode, NewInstanceField, SettingsField, first_index, next_index,
    previous_index, without_id,
};
use crate::config::{AuthDataView, AuthType};
use crate::control::{
    ActionView, ApiResult, Key, api_result_spec, edit_digits, form_java, handle_key_spec,
    next_auth_type, next_settings_focus, previous_settings_focus, with_auth,
};
use crate::text::{all_whitespace, folder_name, is_ascii_digit, parse_u32_spec};
use crate::app::AuthStateView;
use crate::config::AuthData;
use crate::launcher::launch_arguments_of;
use crate::modpack::{ModpackFile, client_unsupported_spec};
use crate::auth::{mark_version_3, offline_name_bytes, offline_uuid};
use crate::digest::{md5_digest, uuid_text};
use vstd::utf8::{decode_utf8, encode_utf8_decode_utf8, encode_utf8_valid_utf8, valid_utf8};
use crate::instance::InstanceView;
use crate::text::{decimal, lemma_parse_decimal};
use crate::installer::{insert_libraries, key_of, merged_libraries, overlay_libraries};
use crate::versions::Library;

verus! {

pub open spec fn is_main_tab(s: CurrentScreen) -> bool {
    s == CurrentScreen::Dashboard || s == CurrentScreen::Instances || s
        == CurrentScreen::ModpackSearch || s == CurrentScreen::Settings
}

/// On the four main tabs, outside a text field, the previous tab undoes the
/// next one and the next tab undoes the previous one.
pub proof fn lemma_tab_round_trip(v: AppView)
    requires
        is_main_tab(v.current_screen),
        v.input_mode == InputMode::Normal,
    ensures
        v.next_tab().previous_tab() == v,
        v.previous_tab().next_tab() == v,
{
    assert(v.next_tab().previous_tab() =~= v);
    assert(v.previous_tab().next_tab() =~= v);
}

/// Four steps through the main tabs come back to where they started.
pub proof fn lemma_tab_cycle(v: AppView)
    requires
        is_main_tab(v.current_screen),
        v.input_mode == InputMode::Normal,
    ensures
        v.next_tab().next_tab().next_tab().next_tab() == v,
{
    assert(v.next_tab().next_tab().next_tab().next_tab() =~= v);
}

/// Four focus changes on the instance form come back to the same field.
pub proof fn lemma_focus_cycle(v: AppView)
    ensures
        v.cycle_new_instance_focus().cycle_new_instance_focus().cycle_new_instance_focus().cycle_new_instance_focus()
            == v,
{
    assert(v.cycle_new_instance_focus().cycle_new_instance_focus().cycle_new_instance_focus().cycle_new_instance_focus()
        =~= v);
}

/// Whether the screen shows a list that the arrow keys move through, with a
/// row of it selected: the instances, the search results, the versions of a
/// modpack, or the game versions of the instance form when that list has
/// the focus.
pub open spec fn selected_in_current_list(v: AppView) -> bool {
    match v.current_screen {
        CurrentScreen::Instances => v.instance_list_state matches Some(i) && i < v.instances.len(),
        CurrentScreen::ModpackSearch => v.search_results_state matches Some(i) && i
            < v.modpack_results.len(),
        CurrentScreen::ModpackVersions => v.modpack_version_list_state matches Some(i) && i
            < v.modpack_versions.len(),
        CurrentScreen::NewInstance => v.new_instance_focus == NewInstanceField::Version && (
        v.new_instance_version_state matches Some(i) && i < v.available_versions.len()),
        _ => false,
    }
}

/// On a list of `n` rows, moving up undoes moving down and the other way
/// round, wrapping at both ends.
pub proof fn lemma_index_round_trip(i: usize, n: nat)
    requires
        i < n,
        n <= usize::MAX,
    ensures
        previous_index(next_index(Some(i), n), n) == Some(i),
        next_index(previous_index(Some(i), n), n) == Some(i),
{
    if i + 1 < n {
        assert((i + 1) % (n as int) == i + 1) by (nonlinear_arith)
            requires
                0 <= i + 1 < n,
        ;
    } else {
        assert((i + 1) % (n as int) == 0) by (nonlinear_arith)
            requires
                i + 1 == n,
                n > 0,
        ;
    }
    if i == 0 {
        assert(((n - 1) as int + 1) % (n as int) == 0) by (nonlinear_arith)
            requires
                n > 0,
        ;
    } else {
        assert((i - 1 + 1) % (n as int) == i) by (nonlinear_arith)
            requires
                0 <= i < n,
        ;
    }
}

/// On any list the arrow keys move through (instances, search results,
/// modpack versions, the form's game versions), moving up undoes moving
/// down and the other way round, for any selected row.
pub proof fn lemma_item_round_trip(v: AppView)
    requires
        selected_in_current_list(v),
        lists_fit(v),
    ensures
        v.next_item().previous_item() == v,
        v.previous_item().next_item() == v,
{
    match v.current_screen {
        CurrentScreen::Instances => lemma_index_round_trip(v.instance_list_state->0, v.instances.len()),
        CurrentScreen::ModpackSearch => lemma_index_round_trip(
            v.search_results_state->0,
            v.modpack_results.len(),
        ),
        CurrentScreen::ModpackVersions => lemma_index_round_trip(
            v.modpack_version_list_state->0,
            v.modpack_versions.len(),
        ),
        CurrentScreen::NewInstance => lemma_index_round_trip(
            v.new_instance_version_state->0,
            v.available_versions.len(),
        ),
        _ => {},
    }
    assert(v.next_item().previous_item() =~= v);
    assert(v.previous_item().next_item() =~= v);
}

/// On the dashboard and the settings there is no list to move through: the
/// arrow moves change nothing.
pub proof fn lemma_no_list_no_move(v: AppView)
    requires
        v.current_screen == CurrentScreen::Dashboard || v.current_screen == CurrentScreen::Settings,
    ensures
        v.next_item() == v,
        v.previous_item() == v,
{
}

/// The lists of a state are no longer than a `Vec` can be.
pub open spec fn lists_fit(v: AppView) -> bool {
    &&& v.instances.len() <= usize::MAX
    &&& v.modpack_results.len() <= usize::MAX
    &&& v.modpack_versions.len() <= usize::MAX
    &&& v.available_versions.len() <= usize::MAX
}

proof fn lemma_mod_below(i: int, n: int)
    requires
        0 <= i,
        n > 0,
    ensures
        0 <= (i + 1) % n < n,
{
    assert(0 <= (i + 1) % n < n) by (nonlinear_arith)
        requires
            0 <= i,
            n > 0,
    ;
}

proof fn lemma_first_index_below(s: Seq<Seq<char>>, x: Seq<char>)
    ensures
        first_index(s, x) matches Some(p) ==> 0 <= p < s.len(),
    decreases s.len(),
{
    if s.len() > 0 && s[0] != x {
        lemma_first_index_below(s.drop_first(), x);
    }
}

/// What keeping the selections means for a step from `v` to `w`.
pub open spec fn keeps_selections(v: AppView, w: AppView) -> bool {
    &&& w.selections_bounded()
    &&& v.instance_selection_valid() ==> w.instance_selection_valid()
}

proof fn lemma_moves_keep_selections(v: AppView)
    requires
        v.selections_bounded(),
        lists_fit(v),
    ensures
        keeps_selections(v, v.next_item()),
        keeps_selections(v, v.previous_item()),
        keeps_selections(v, v.open_edit_instance()),
        keeps_selections(v, v.open_new_instance()),
{
    match v.instance_list_state {
        Some(i) => if v.instances.len() > 0 {
            lemma_mod_below(i as int, v.instances.len() as int)
        },
        None => {},
    }
    match v.search_results_state {
        Some(i) => if v.modpack_results.len() > 0 {
            lemma_mod_below(i as int, v.modpack_results.len() as int)
        },
        None => {},
    }
    match v.modpack_version_list_state {
        Some(i) => if v.modpack_versions.len() > 0 {
            lemma_mod_below(i as int, v.modpack_versions.len() as int)
        },
        None => {},
    }
    match v.new_instance_version_state {
        Some(i) => if v.available_versions.len() > 0 {
            lemma_mod_below(i as int, v.available_versions.len() as int)
        },
        None => {},
    }
    match v.instance_list_state {
        Some(i) => if i < v.instances.len() {
            lemma_first_index_below(v.available_versions, v.instances[i as int].version);
        },
        None => {},
    }
}

proof fn lemma_instances_key_keeps(v: AppView, key: Key)
    requires
        v.selections_bounded(),
        lists_fit(v),
    ensures
        keeps_selections(v, crate::control::instances_key(v, key).0),
{
    lemma_moves_keep_selections(v);
}

proof fn lemma_new_instance_key_keeps(v: AppView, key: Key)
    requires
        v.selections_bounded(),
        lists_fit(v),
    ensures
        keeps_selections(v, crate::control::new_instance_key(v, key).0),
{
    lemma_moves_keep_selections(v);
}

proof fn lemma_search_key_keeps(v: AppView, key: Key)
    requires
        v.selections_bounded(),
        lists_fit(v),
    ensures
        keeps_selections(v, crate::control::modpack_search_key(v, key).0),
{
    lemma_moves_keep_selections(v);
}

proof fn lemma_versions_key_keeps(v: AppView, key: Key)
    requires
        v.selections_bounded(),
        lists_fit(v),
    ensures
        keeps_selections(v, crate::control::modpack_versions_key(v, key).0),
{
    lemma_moves_keep_selections(v);
}

proof fn lemma_settings_key_keeps(v: AppView, key: Key)
    requires
        v.selections_bounded(),
    ensures
        keeps_selections(v, crate::control::settings_key(v, key).0),
{
}

/// Whatever key is pressed, the instance selection stays inside the instance
/// list and no selection reaches the largest index.
pub proof fn lemma_key_keeps_selections(v: AppView, key: Key)
    requires
        v.selections_bounded(),
        lists_fit(v),
    ensures
        keeps_selections(v, handle_key_spec(v, key).0),
{
    lemma_moves_keep_selections(v);
    lemma_instances_key_keeps(v, key);
    lemma_new_instance_key_keeps(v, key);
    lemma_search_key_keeps(v, key);
    lemma_versions_key_keeps(v, key);
    lemma_settings_key_keeps(v, key);
}

/// Whatever comes back from background work, the instance selection stays
/// inside the instance list and no selection reaches the largest index.
pub proof fn lemma_reply_keeps_selections(v: AppView, r: ApiResult)
    requires
        v.instance_selection_valid(),
        v.selections_bounded(),
        v.instances.len() < usize::MAX,
    ensures
        api_result_spec(v, r).0.instance_selection_valid(),
        api_result_spec(v, r).0.selections_bounded(),
{
    lemma_without_id(v.instances, match r {
        ApiResult::InstallSuccess { name, id, version, memory, java, loader } => id@,
        _ => Seq::empty(),
    });
}

/// Dropping the instances with an id keeps the others in order and leaves
/// none with that id.
pub proof fn lemma_without_id(s: Seq<InstanceView>, id: Seq<char>)
    ensures
        without_id(s, id).len() <= s.len(),
        forall|i: int| 0 <= i < without_id(s, id).len() ==> #[trigger] without_id(s, id)[i].id != id,
        forall|i: int| 0 <= i < s.len() && s[i].id != id ==> without_id(s, id).contains(#[trigger] s[i]),
    decreases s.len(),
{
    if s.len() > 0 {
        let p = s.drop_last();
        lemma_without_id(p, id);
        let r = without_id(p, id);
        assert forall|i: int| 0 <= i < s.len() && s[i].id != id implies without_id(s, id).contains(
            #[trigger] s[i],
        ) by {
            if i < s.len() - 1 {
                assert(p[i] == s[i]);
                let k = choose|k: int| 0 <= k < r.len() && r[k] == p[i];
                if s.last().id != id {
                    assert(without_id(s, id)[k] == s[i]);
                }
            } else {
                assert(without_id(s, id)[r.len() as int] == s[i]);
            }
        }
        assert forall|i: int| 0 <= i < without_id(s, id).len() implies #[trigger] without_id(
            s,
            id,
        )[i].id != id by {
            if i < r.len() {
                assert(without_id(s, id)[i] == r[i]);
            }
        }
    }
}

/// After an instance is added, it is the last one, it is the only one with
/// its id, and every other instance is still there.
pub proof fn lemma_add_instance(
    v: AppView,
    name: Seq<char>,
    id: Seq<char>,
    version: Seq<char>,
    memory: u32,
    java: Seq<char>,
    loader: Seq<char>,
)
    ensures
        ({
            let w = v.add_instance(name, id, version, memory, java, loader);
            &&& w.instances.len() > 0
            &&& w.instances.last().id == id
            &&& w.instances.last().name == name
            &&& w.instances.last().max_memory == memory
            &&& forall|i: int| 0 <= i < w.instances.len() - 1 ==> #[trigger] w.instances[i].id != id
            &&& forall|i: int|
                0 <= i < v.instances.len() && v.instances[i].id != id ==> w.instances.contains(
                    #[trigger] v.instances[i],
                )
        }),
{
    lemma_without_id(v.instances, id);
    let w = v.add_instance(name, id, version, memory, java, loader);
    let r = without_id(v.instances, id);
    assert forall|i: int| 0 <= i < w.instances.len() - 1 implies #[trigger] w.instances[i].id != id by {
        assert(w.instances[i] == r[i]);
    }
    assert forall|i: int|
        0 <= i < v.instances.len() && v.instances[i].id != id implies w.instances.contains(
        #[trigger] v.instances[i],
    ) by {
        assert(r.contains(v.instances[i]));
        let k = choose|k: int| 0 <= k < r.len() && r[k] == v.instances[i];
        assert(w.instances[k] == v.instances[i]);
    }
}

/// No two instances share an id.
pub open spec fn distinct_ids(s: Seq<InstanceView>) -> bool {
    forall|i: int, j: int| 0 <= i < j < s.len() ==> #[trigger] s[i].id != #[trigger] s[j].id
}

/// Every instance left after dropping an id was in the list before.
proof fn lemma_without_id_from(s: Seq<InstanceView>, id: Seq<char>)
    ensures
        forall|k: int| 0 <= k < without_id(s, id).len() ==> s.contains(#[trigger] without_id(s, id)[k]),
    decreases s.len(),
{
    if s.len() > 0 {
        let p = s.drop_last();
        lemma_without_id_from(p, id);
        let r = without_id(p, id);
        assert forall|k: int| 0 <= k < without_id(s, id).len() implies s.contains(
            #[trigger] without_id(s, id)[k],
        ) by {
            if k < r.len() {
                assert(without_id(s, id)[k] == r[k]);
                assert(p.contains(r[k]));
                let m = choose|m: int| 0 <= m < p.len() && p[m] == r[k];
                assert(s[m] == p[m]);
            } else {
                assert(without_id(s, id)[k] == s.last());
                assert(s[s.len() - 1] == s.last());
            }
        }
    }
}

/// Dropping the instances with an id keeps the ids distinct.
proof fn lemma_without_id_distinct(s: Seq<InstanceView>, id: Seq<char>)
    requires
        distinct_ids(s),
    ensures
        distinct_ids(without_id(s, id)),
    decreases s.len(),
{
    if s.len() > 0 {
        let p = s.drop_last();
        assert(distinct_ids(p)) by {
            assert forall|i: int, j: int| 0 <= i < j < p.len() implies #[trigger] p[i].id != #[trigger] p[j].id by {
                assert(p[i] == s[i] && p[j] == s[j]);
            }
        }
        lemma_without_id_distinct(p, id);
        lemma_without_id_from(p, id);
        let r = without_id(p, id);
        if s.last().id != id {
            let w = r.push(s.last());
            assert(without_id(s, id) == w);
            assert forall|i: int, j: int| 0 <= i < j < w.len() implies #[trigger] w[i].id != #[trigger] w[j].id by {
                if j < r.len() {
                    assert(w[i] == r[i] && w[j] == r[j]);
                } else {
                    assert(w[i] == r[i]);
                    assert(p.contains(r[i]));
                    let m = choose|m: int| 0 <= m < p.len() && p[m] == r[i];
                    assert(s[m] == p[m]);
                    assert(s[s.len() - 1] == s.last());
                    assert(s[m].id != s[s.len() - 1].id);
                }
            }
        }
    }
}

/// Adding an instance keeps the ids of the instances distinct.
pub proof fn lemma_add_instance_distinct(
    v: AppView,
    name: Seq<char>,
    id: Seq<char>,
    version: Seq<char>,
    memory: u32,
    java: Seq<char>,
    loader: Seq<char>,
)
    requires
        distinct_ids(v.instances),
    ensures
        distinct_ids(v.add_instance(name, id, version, memory, java, loader).instances),
{
    lemma_without_id(v.instances, id);
    lemma_without_id_distinct(v.instances, id);
    let r = without_id(v.instances, id);
    let w = v.add_instance(name, id, version, memory, java, loader).instances;
    assert forall|i: int, j: int| 0 <= i < j < w.len() implies #[trigger] w[i].id != #[trigger] w[j].id by {
        if j < r.len() {
            assert(w[i] == r[i] && w[j] == r[j]);
        } else {
            assert(w[i] == r[i]);
            assert(r[i].id != id);
        }
    }
}

/// Opening the selected instance for editing and saving it straight away
/// keeps its name and memory (and its Java path unless that is blank, which
/// is saved as `java`), and asks for the list to be saved.
pub proof fn lemma_edit_round_trip(v: AppView)
    requires
        v.current_screen == CurrentScreen::Instances,
        !v.confirm_delete,
        !v.show_popup,
        v.input_mode == InputMode::Normal,
        v.instance_list_state matches Some(i) && i < v.instances.len(),
    ensures
        ({
            let i = v.instance_list_state->0 as int;
            let w = handle_key_spec(v, Key::Char('e')).0;
            let (u, action) = handle_key_spec(w, Key::Enter);
            &&& action == ActionView::SaveInstances
            &&& u.instances.len() == v.instances.len()
            &&& u.instances[i].name == v.instances[i].name
            &&& u.instances[i].max_memory == v.instances[i].max_memory
            &&& u.instances[i].id == v.instances[i].id
            &&& u.instances[i].version == v.instances[i].version
            &&& u.instances[i].java_path == form_java(w)
            &&& u.current_screen == CurrentScreen::Instances
        }),
{
    let i = v.instance_list_state->0;
    lemma_parse_decimal(v.instances[i as int].max_memory);
    let w = handle_key_spec(v, Key::Char('e')).0;
    assert(w == v.open_edit_instance());
    assert(w.new_instance_memory == decimal(v.instances[i as int].max_memory as nat));
}

/// The libraries stored by inserting some in turn are exactly those keys.
proof fn lemma_insert_keys(m: Map<Seq<char>, Library>, libs: Seq<Library>)
    ensures
        forall|k: Seq<char>|
            #[trigger] insert_libraries(m, libs).contains_key(k) <==> (m.contains_key(k) || exists|j: int|
                0 <= j < libs.len() && key_of(#[trigger] libs[j]) == k),
    decreases libs.len(),
{
    if libs.len() > 0 {
        let p = libs.drop_last();
        lemma_insert_keys(m, p);
        assert forall|k: Seq<char>|
            #[trigger] insert_libraries(m, libs).contains_key(k) <==> (m.contains_key(k) || exists|j: int|
                0 <= j < libs.len() && key_of(#[trigger] libs[j]) == k) by {
            assert(insert_libraries(m, libs) == insert_libraries(m, p).insert(key_of(libs.last()), libs.last()));
            assert(libs[libs.len() - 1] == libs.last());
            if k == key_of(libs.last()) {
                assert(key_of(libs[libs.len() - 1]) == k);
            }
            if exists|j: int| 0 <= j < libs.len() && key_of(#[trigger] libs[j]) == k {
                let j = choose|j: int| 0 <= j < libs.len() && key_of(#[trigger] libs[j]) == k;
                if j < libs.len() - 1 {
                    assert(p[j] == libs[j]);
                }
            }
            if exists|j: int| 0 <= j < p.len() && key_of(#[trigger] p[j]) == k {
                let j = choose|j: int| 0 <= j < p.len() && key_of(#[trigger] p[j]) == k;
                assert(libs[j] == p[j]);
            }
        }
    }
}

proof fn lemma_overlay_keys(m: Map<Seq<char>, Library>, libs: Seq<Library>)
    ensures
        forall|k: Seq<char>|
            #[trigger] overlay_libraries(m, libs).contains_key(k) <==> (m.contains_key(k) || exists|j: int|
                0 <= j < libs.len() && key_of(#[trigger] libs[j]) == k),
    decreases libs.len(),
{
    if libs.len() > 0 {
        let p = libs.drop_last();
        lemma_overlay_keys(m, p);
        assert forall|k: Seq<char>|
            #[trigger] overlay_libraries(m, libs).contains_key(k) <==> (m.contains_key(k) || exists|j: int|
                0 <= j < libs.len() && key_of(#[trigger] libs[j]) == k) by {
            assert(overlay_libraries(m, libs) == crate::installer::overlay_step(overlay_libraries(m, p), libs.last()));
            assert(libs[libs.len() - 1] == libs.last());
            if k == key_of(libs.last()) {
                assert(key_of(libs[libs.len() - 1]) == k);
            }
            if exists|j: int| 0 <= j < libs.len() && key_of(#[trigger] libs[j]) == k {
                let j = choose|j: int| 0 <= j < libs.len() && key_of(#[trigger] libs[j]) == k;
                if j < libs.len() - 1 {
                    assert(p[j] == libs[j]);
                }
            }
            if exists|j: int| 0 <= j < p.len() && key_of(#[trigger] p[j]) == k {
                let j = choose|j: int| 0 <= j < p.len() && key_of(#[trigger] p[j]) == k;
                assert(libs[j] == p[j]);
            }
        }
    }
}

/// Laying Fabric over a version loses no library: the merged libraries have
/// exactly the keys of the version's and of Fabric's libraries.
pub proof fn lemma_merged_keys(vanilla: Seq<Library>, fabric: Seq<Library>)
    ensures
        forall|k: Seq<char>|
            #[trigger] merged_libraries(vanilla, fabric).contains_key(k) <==> ((exists|j: int|
                0 <= j < vanilla.len() && key_of(#[trigger] vanilla[j]) == k) || (exists|j: int|
                0 <= j < fabric.len() && key_of(#[trigger] fabric[j]) == k)),
{
    lemma_insert_keys(Map::empty(), vanilla);
    lemma_overlay_keys(insert_libraries(Map::empty(), vanilla), fabric);
}

/// A Fabric library always wins over the version's library with its key:
/// the merged entry carries the Fabric library's name.
pub proof fn lemma_fabric_wins(vanilla: Seq<Library>, fabric: Seq<Library>, j: int)
    requires
        0 <= j < fabric.len(),
        forall|t: int| j < t < fabric.len() ==> key_of(#[trigger] fabric[t]) != key_of(fabric[j]),
    ensures
        merged_libraries(vanilla, fabric).contains_key(key_of(fabric[j])),
        merged_libraries(vanilla, fabric)[key_of(fabric[j])].name == fabric[j].name,
    decreases fabric.len(),
{
    let p = fabric.drop_last();
    let base = insert_libraries(Map::empty(), vanilla);
    if j < fabric.len() - 1 {
        assert forall|t: int| j < t < p.len() implies key_of(#[trigger] p[t]) != key_of(p[j]) by {
            assert(p[t] == fabric[t]);
        }
        lemma_fabric_wins(vanilla, p, j);
        assert(p[j] == fabric[j]);
        assert(key_of(fabric.last()) != key_of(fabric[j]));
        assert(overlay_libraries(base, fabric) == crate::installer::overlay_step(
            overlay_libraries(base, p),
            fabric.last(),
        ));
    } else {
        assert(overlay_libraries(base, fabric) == crate::installer::overlay_step(
            overlay_libraries(base, p),
            fabric.last(),
        ));
    }
}

/// A settings form that a user can reach: the password field has the focus
/// only while Ely.by is chosen.
pub open spec fn settings_form_open(v: AppView) -> bool {
    &&& v.current_screen == CurrentScreen::Settings
    &&& !v.confirm_delete
    &&& !v.show_popup
    &&& !(v.settings_focus == SettingsField::Password && v.config.auth.auth_type != AuthType::ElyBy)
}

/// On the settings form, moving the focus down (Tab or Down) and back up
/// (BackTab or Up), in either order, returns to the same state.
pub proof fn lemma_settings_focus_round_trip(v: AppView, down: Key, up: Key)
    requires
        settings_form_open(v),
        down == Key::Tab || down == Key::Down,
        up == Key::BackTab || up == Key::Up,
    ensures
        handle_key_spec(handle_key_spec(v, down).0, up) == (v, ActionView::Nothing),
        handle_key_spec(handle_key_spec(v, up).0, down) == (v, ActionView::Nothing),
{
    let w1 = handle_key_spec(v, down).0;
    assert(w1 == AppView { settings_focus: next_settings_focus(v), ..v });
    assert(handle_key_spec(w1, up).0 =~= v);
    let w2 = handle_key_spec(v, up).0;
    assert(w2 == AppView { settings_focus: previous_settings_focus(v), ..v });
    assert(handle_key_spec(w2, down).0 =~= v);
}

/// One account-type key on the selector: the type moves forward and
/// nothing else changes.
proof fn lemma_auth_type_step(v: AppView, k: Key)
    requires
        settings_form_open(v),
        v.settings_focus == SettingsField::AuthType,
        is_auth_type_key(k),
    ensures
        handle_key_spec(v, k) == (
            with_auth(v, AuthDataView { auth_type: next_auth_type(v.config.auth.auth_type), ..v.config.auth }),
            ActionView::Nothing,
        ),
{
}

/// On the account-type selector, Left, Right, `h` and `l` all move the
/// account type forward (Offline, Microsoft, Ely.by, then round again) and
/// change nothing else; three such keys come back to the start.
pub proof fn lemma_auth_type_cycle(v: AppView, k1: Key, k2: Key, k3: Key)
    requires
        settings_form_open(v),
        v.settings_focus == SettingsField::AuthType,
        is_auth_type_key(k1),
        is_auth_type_key(k2),
        is_auth_type_key(k3),
    ensures
        handle_key_spec(v, k1) == (
            with_auth(v, AuthDataView { auth_type: next_auth_type(v.config.auth.auth_type), ..v.config.auth }),
            ActionView::Nothing,
        ),
        handle_key_spec(handle_key_spec(handle_key_spec(v, k1).0, k2).0, k3) == (v, ActionView::Nothing),
{
    lemma_auth_type_step(v, k1);
    let w1 = handle_key_spec(v, k1).0;
    lemma_auth_type_step(w1, k2);
    let w2 = handle_key_spec(w1, k2).0;
    lemma_auth_type_step(w2, k3);
    let w3 = handle_key_spec(w2, k3).0;
    assert(w3.config.auth =~= v.config.auth);
    assert(w3.config =~= v.config);
    assert(w3 =~= v);
}

pub open spec fn is_auth_type_key(k: Key) -> bool {
    k == Key::Left || k == Key::Right || k == Key::Char('h') || k == Key::Char('l')
}

pub open spec fn all_digits(s: Seq<char>) -> bool {
    forall|i: int| 0 <= i < s.len() ==> is_ascii_digit(#[trigger] s[i])
}

/// With the memory field focused, a key other than Esc, Tab and Enter only
/// edits that field, and a field of digits stays a field of digits.
pub proof fn lemma_memory_stays_digits(v: AppView, key: Key)
    requires
        v.current_screen == CurrentScreen::NewInstance,
        !v.confirm_delete,
        !v.show_popup,
        v.new_instance_focus == NewInstanceField::Memory,
        key != Key::Esc && key != Key::Tab && key != Key::Enter,
        all_digits(v.new_instance_memory),
    ensures
        handle_key_spec(v, key).0 == (AppView { new_instance_memory: handle_key_spec(v, key).0.new_instance_memory, ..v }),
        handle_key_spec(v, key).1 == ActionView::Nothing,
        all_digits(handle_key_spec(v, key).0.new_instance_memory),
{
    let m = handle_key_spec(v, key).0.new_instance_memory;
    assert(m == edit_digits(v.new_instance_memory, key));
    assert forall|i: int| 0 <= i < m.len() implies is_ascii_digit(#[trigger] m[i]) by {
        if i < v.new_instance_memory.len() {
            assert(m[i] == v.new_instance_memory[i]);
        }
    }
}

/// Enter on the new-instance form (not editing, with the version manifest
/// loaded) installs under the typed name and a folder derived from it; only
/// a name that is all whitespace falls back to `Minecraft <version>`. The
/// version is the selected release (or `Unknown`), the memory the typed
/// number (or 4096) and the Java path the typed one (or `java`).
pub proof fn lemma_install_uses_typed_name(v: AppView)
    requires
        v.current_screen == CurrentScreen::NewInstance,
        !v.confirm_delete,
        !v.show_popup,
        v.editing_instance_index is None,
        v.manifest is Some,
    ensures
        ({
            let (w, a) = handle_key_spec(v, Key::Enter);
            let version = match v.new_instance_version_state {
                Some(i) => if i < v.available_versions.len() {
                    v.available_versions[i as int]
                } else {
                    "Unknown"@
                },
                None => "Unknown"@,
            };
            &&& a is InstallVanilla
            &&& !all_whitespace(v.new_instance_name) ==> a->InstallVanilla_name == v.new_instance_name
            &&& all_whitespace(v.new_instance_name) ==> a->InstallVanilla_name == "Minecraft "@ + version
            &&& a->InstallVanilla_id == folder_name(a->InstallVanilla_name)
            &&& a->InstallVanilla_version == version
            &&& (parse_u32_spec(v.new_instance_memory) matches Some(m) ==> a->InstallVanilla_memory == m)
            &&& (parse_u32_spec(v.new_instance_memory) is None ==> a->InstallVanilla_memory == 4096)
            &&& !all_whitespace(v.new_instance_java) ==> a->InstallVanilla_java == v.new_instance_java
            &&& all_whitespace(v.new_instance_java) ==> a->InstallVanilla_java == "java"@
            &&& w.show_popup && w.is_loading
            &&& w.popup_message == "Installing "@ + a->InstallVanilla_name + "…\nThis may take a moment."@
            &&& w.instances == v.instances
        }),
{
}

/// Without the version manifest, Enter on the new-instance form starts
/// nothing and changes nothing.
pub proof fn lemma_no_install_without_manifest(v: AppView)
    requires
        v.current_screen == CurrentScreen::NewInstance,
        !v.confirm_delete,
        !v.show_popup,
        v.editing_instance_index is None,
        v.manifest is None,
    ensures
        handle_key_spec(v, Key::Enter) == (v, ActionView::Nothing),
{
}

/// The Java command line carries the authlib-injector agent and its two
/// module flags exactly for Ely.by accounts: for the others the two JVM
/// options are followed directly by `-cp` (23 arguments); for Ely.by the
/// agent on `authlib_path` and the flags come first (28 arguments). Either
/// way the class path, main class, UUID, token and user name of the account
/// stand in their places.
pub proof fn lemma_agent_only_for_ely_by(
    memory_mb: u32,
    natives_dir: Seq<char>,
    authlib_path: Seq<char>,
    classpath: Seq<char>,
    main_class: Seq<char>,
    version_id: Seq<char>,
    game_dir: Seq<char>,
    assets_dir: Seq<char>,
    asset_index_id: Seq<char>,
    auth: AuthData,
)
    ensures
        ({
            let args = launch_arguments_of(
                memory_mb,
                natives_dir,
                authlib_path,
                classpath,
                main_class,
                version_id,
                game_dir,
                assets_dir,
                asset_index_id,
                auth,
            );
            let k: int = if auth.auth_type == AuthType::ElyBy { 7 } else { 2 };
            &&& auth.auth_type != AuthType::ElyBy ==> args.len() == 23
            &&& auth.auth_type == AuthType::ElyBy ==> args.len() == 28
            &&& auth.auth_type == AuthType::ElyBy ==> args[2] == "-javaagent:"@ + authlib_path
                + "=https://authlib.ely.by"@
            &&& auth.auth_type == AuthType::ElyBy ==> args[3] == "--add-opens"@ && args[5] == "--add-exports"@
            &&& args[0] == "-Xmx"@ + decimal(memory_mb as nat) + "M"@
            &&& args[1] == "-Djava.library.path="@ + natives_dir
            &&& args[k] == "-cp"@
            &&& args[k + 1] == classpath
            &&& args[k + 2] == main_class
            &&& args[k + 4] == version_id
            &&& args[k + 11] == "--uuid"@ && args[k + 12] == auth.uuid@
            &&& args[k + 13] == "--accessToken"@ && args[k + 14] == auth.access_token@
            &&& args[k + 19] == "--username"@ && args[k + 20] == auth.username@
        }),
{
}

/// A finished login stores each part of the reply in its own field of the
/// account (name, UUID, token), keeps the account type, shows the user as
/// logged in, ends the loading popup and asks for the configuration to be
/// saved.
pub proof fn lemma_login_stores_reply(v: AppView, name: String, uuid: String, token: String)
    ensures
        ({
            let (w, a) = api_result_spec(v, ApiResult::AuthSuccess(name, uuid, token));
            &&& w.config.auth.username == name@
            &&& w.config.auth.uuid == uuid@
            &&& w.config.auth.access_token == token@
            &&& w.config.auth.auth_type == v.config.auth.auth_type
            &&& w.auth_state == AuthStateView::Success(name@)
            &&& !w.show_popup && !w.is_loading
            &&& w.instances == v.instances
            &&& a == ActionView::SaveConfig
        }),
{
}

/// A modpack file is skipped exactly when it declares that the client does
/// not support it: files without an environment, and files the client
/// requires or may use, are installed.
pub proof fn lemma_only_unsupported_files_skipped(f: ModpackFile)
    ensures
        f.env is None ==> !client_unsupported_spec(f),
        (f.env matches Some(e) && (e.client@ == "required"@ || e.client@ == "optional"@))
            ==> !client_unsupported_spec(f),
        (f.env matches Some(e) && e.client@ == "unsupported"@) ==> client_unsupported_spec(f),
        client_unsupported_spec(f) ==> (f.env matches Some(e) && e.client@ == "unsupported"@),
{
    reveal_strlit("required");
    reveal_strlit("optional");
    reveal_strlit("unsupported");
    if f.env is Some {
        let c = f.env->0.client@;
        if c == "required"@ {
            assert(c[0] != "unsupported"@[0]);
        }
        if c == "optional"@ {
            assert(c[0] != "unsupported"@[0]);
        }
    }
}

/// The offline UUID hashes `OfflinePlayer:` followed by the user name
/// exactly as typed: the hashed bytes are valid UTF-8 that decodes to that
/// text, so two different names never hash the same bytes.
pub proof fn lemma_offline_uuid_hashes_whole_name(u1: Seq<char>, u2: Seq<char>)
    ensures
        valid_utf8(offline_name_bytes(u1)),
        decode_utf8(offline_name_bytes(u1)) == "OfflinePlayer:"@ + u1,
        offline_uuid(u1) == uuid_text(mark_version_3(md5_digest(offline_name_bytes(u1)))),
        u1 != u2 ==> offline_name_bytes(u1) != offline_name_bytes(u2),
{
    let p = "OfflinePlayer:"@;
    encode_utf8_valid_utf8(p + u1);
    encode_utf8_decode_utf8(p + u1);
    encode_utf8_decode_utf8(p + u2);
    if offline_name_bytes(u1) == offline_name_bytes(u2) {
        assert(p + u1 == p + u2);
        assert(u1 =~= (p + u1).subrange(p.len() as int, (p + u1).len() as int));
        assert(u2 =~= (p + u2).subrange(p.len() as int, (p + u2).len() as int));
    }
}

/// Which UUID an offline player gets: the marked MD5 of some valid UTF-8
/// bytes that decode to `OfflinePlayer:` and the name.
pub proof fn lemma_offline_uuid_of_name(u: Seq<char>)
    ensures
        exists|b: Seq<u8>|
            valid_utf8(b) && decode_utf8(b) == "OfflinePlayer:"@ + u && offline_uuid(u) == uuid_text(
                mark_version_3(#[trigger] md5_digest(b)),
            ),
{
    lemma_offline_uuid_hashes_whole_name(u, u);
    let b = offline_name_bytes(u);
    assert(valid_utf8(b) && decode_utf8(b) == "OfflinePlayer:"@ + u && offline_uuid(u) == uuid_text(
        mark_version_3(md5_digest(b)),
    ));
}

} // verus!
