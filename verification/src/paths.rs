//! Where the launcher keeps its files. Paths are strings with `/` between
//! components, joined the way `Path::join` joins a relative component on Unix.
use vstd::prelude::*;
use crate::text::{text, concat2, concat3};

verus! {

/// `base.join(rest)`: an absolute `rest` replaces `base`; otherwise a `/`
/// is inserted unless `base` is empty or already ends with one.
pub open spec fn path_join(base: Seq<char>, rest: Seq<char>) -> Seq<char> {
    if rest.len() > 0 && rest[0] == '/' {
        rest
    } else if base.len() == 0 {
        rest
    } else if base.last() == '/' {
        base + rest
    } else {
        base + seq!['/'] + rest
    }
}

pub fn join_path(base: &str, rest: &str) -> (r: String)
    ensures
        r@ == path_join(base@, rest@),
{
    let nb = base.unicode_len();
    let nr = rest.unicode_len();
    if nr > 0 && rest.get_char(0) == '/' {
        return text(rest);
    }
    if nb == 0 {
        return text(rest);
    }
    if base.get_char(nb - 1) == '/' {
        concat2(base, rest)
    } else {
        let r = concat3(base, "/", rest);
        proof {
            reveal_strlit("/");
        }
        assert(r@ == base@ + seq!['/'] + rest@);
        r
    }
}

/// Calls `directories::BaseDirs::new` and, when it finds a home directory,
/// returns the user's data directory as text (`$XDG_DATA_HOME` or
/// `~/.local/share` on Linux, `~/Library/Application Support` on macOS, the
/// roaming application data folder on Windows). Which directory comes back
/// depends on the platform and the environment; nothing about it is stated.
#[verifier::external_body]
fn user_data_dir() -> (r: Option<String>) {
    match directories::BaseDirs::new() {
        Some(dirs) => Some(dirs.data_dir().to_string_lossy().into_owned()),
        None => None,
    }
}

/// The folder the launcher keeps inside the user's data directory.
pub open spec fn app_dir_name() -> Seq<char> {
    "mine-tui"@
}

/// The directory to use when the platform offers no data directory.
pub open spec fn fallback_data_dir() -> Seq<char> {
    "mine-tui-data"@
}

/// What a data directory of the launcher is: `mine-tui` inside some user
/// data directory, or the fallback `mine-tui-data`.
pub open spec fn is_data_dir(d: Seq<char>) -> bool {
    d == fallback_data_dir() || exists|base: Seq<char>| d == path_join(base, app_dir_name())
}

/// Every data directory of the launcher is a non-empty path.
pub proof fn lemma_data_dir_nonempty(d: Seq<char>)
    requires
        is_data_dir(d),
    ensures
        d.len() > 0,
{
    reveal_strlit("mine-tui-data");
    reveal_strlit("mine-tui");
    if d != fallback_data_dir() {
        let base = choose|base: Seq<char>| d == path_join(base, app_dir_name());
        assert(d == path_join(base, app_dir_name()));
    }
}

/// `mine-tui` inside the user's data directory when there is one, else
/// `mine-tui-data`.
pub fn data_dir_or_default(user_dir: Option<String>) -> (r: String)
    ensures
        r@ == (match user_dir {
            Some(d) => path_join(d@, app_dir_name()),
            None => fallback_data_dir(),
        }),
{
    match user_dir {
        Some(d) => join_path(d.as_str(), "mine-tui"),
        None => text("mine-tui-data"),
    }
}

/// The launcher's data directory: `mine-tui` in the user's data directory,
/// or `mine-tui-data` where the platform has none. Either way it is a
/// non-empty path.
pub fn get_data_dir() -> (r: String)
    ensures
        is_data_dir(r@),
        r@.len() > 0,
{
    let found = user_data_dir();
    let ghost g = found;
    let r = data_dir_or_default(found);
    proof {
        match g {
            Some(d) => {
                assert(r@ == path_join(d@, app_dir_name()));
            },
            None => {},
        }
        lemma_data_dir_nonempty(r@);
    }
    r
}

pub open spec fn instances_dir_of(data_dir: Seq<char>) -> Seq<char> {
    path_join(data_dir, "instances"@)
}

pub open spec fn config_path_of(data_dir: Seq<char>) -> Seq<char> {
    path_join(data_dir, "config.json"@)
}

pub open spec fn instances_file_of(data_dir: Seq<char>) -> Seq<char> {
    path_join(data_dir, "instances.json"@)
}

pub open spec fn instance_dir_of(data_dir: Seq<char>, name: Seq<char>) -> Seq<char> {
    path_join(instances_dir_of(data_dir), name)
}

pub fn instances_dir_in(data_dir: &str) -> (r: String)
    ensures
        r@ == instances_dir_of(data_dir@),
{
    join_path(data_dir, "instances")
}

pub fn config_path_in(data_dir: &str) -> (r: String)
    ensures
        r@ == config_path_of(data_dir@),
{
    join_path(data_dir, "config.json")
}

pub fn instances_file_in(data_dir: &str) -> (r: String)
    ensures
        r@ == instances_file_of(data_dir@),
{
    join_path(data_dir, "instances.json")
}

/// The folder of one instance: `<data>/instances/<name>`.
pub fn instance_dir_in(data_dir: &str, name: &str) -> (r: String)
    ensures
        r@ == instance_dir_of(data_dir@, name@),
{
    let dir = instances_dir_in(data_dir);
    join_path(dir.as_str(), name)
}

/// `<data>/libraries`.
pub fn libraries_dir_in(data_dir: &str) -> (r: String)
    ensures
        r@ == path_join(data_dir@, "libraries"@),
{
    join_path(data_dir, "libraries")
}

/// `<data>/assets`.
pub fn assets_dir_in(data_dir: &str) -> (r: String)
    ensures
        r@ == path_join(data_dir@, "assets"@),
{
    join_path(data_dir, "assets")
}

/// The file that holds the configuration: `config.json` in the data directory.
pub fn get_config_path() -> (r: String)
    ensures
        exists|d: Seq<char>| is_data_dir(d) && d.len() > 0 && r@ == config_path_of(d),
{
    let d = get_data_dir();
    let r = config_path_in(d.as_str());
    assert(is_data_dir(d@) && d@.len() > 0 && r@ == config_path_of(d@));
    r
}

/// The folder that holds every instance: `instances` in the data directory.
pub fn get_instances_dir() -> (r: String)
    ensures
        exists|d: Seq<char>| is_data_dir(d) && d.len() > 0 && r@ == instances_dir_of(d),
{
    let d = get_data_dir();
    let r = instances_dir_in(d.as_str());
    assert(is_data_dir(d@) && d@.len() > 0 && r@ == instances_dir_of(d@));
    r
}

} // verus!
