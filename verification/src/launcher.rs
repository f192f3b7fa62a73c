//! Starting the game: which jars go on the class path, which archives hold
//! native libraries, and the command line handed to Java.
use vstd::prelude::*;
use crate::text::{
    concat2, concat3, contains_text, decimal, has_infix, join, join_text, split_on, split_text,
    text, u32_to_string, views,
};
use crate::config::{AuthData, AuthType};
use crate::versions::{DownloadArtifact, Library};
use crate::installer::{maven_natives_path, maven_natives_path_of, maven_path, maven_path_of};
use crate::paths::{join_path, path_join};

verus! {

/// One thing to do for a library when the game starts. Paths are relative
/// to the libraries directory.
#[derive(Debug)]
pub enum LaunchStep {
    /// Put the jar on the class path if it exists; warn when it is missing
    /// and `warn_if_missing` is set.
    Classpath { path: String, warn_if_missing: bool },
    /// Extract the archive into the natives directory if it exists.
    Native { path: String },
}

pub enum LaunchStepView {
    Classpath { path: Seq<char>, warn_if_missing: bool },
    Native { path: Seq<char> },
}

impl View for LaunchStep {
    type V = LaunchStepView;

    open spec fn view(&self) -> LaunchStepView {
        match self {
            LaunchStep::Classpath { path, warn_if_missing } => LaunchStepView::Classpath {
                path: path@,
                warn_if_missing: *warn_if_missing,
            },
            LaunchStep::Native { path } => LaunchStepView::Native { path: path@ },
        }
    }
}

pub open spec fn step_views(s: Seq<LaunchStep>) -> Seq<LaunchStepView> {
    s.map_values(|x: LaunchStep| x@)
}

/// The artifact paired with the first occurrence of a classifier name.
pub open spec fn lookup_classifier(pairs: Seq<(String, DownloadArtifact)>, key: Seq<char>) -> Option<
    DownloadArtifact,
>
    decreases pairs.len(),
{
    if pairs.len() == 0 {
        None
    } else if pairs[0].0@ == key {
        Some(pairs[0].1)
    } else {
        lookup_classifier(pairs.drop_first(), key)
    }
}

fn find_classifier(pairs: &Vec<(String, DownloadArtifact)>, key: &str) -> (r: Option<usize>)
    ensures
        match r {
            Some(i) => i < pairs@.len() && lookup_classifier(pairs@, key@) == Some(pairs@[i as int].1),
            None => lookup_classifier(pairs@, key@) is None,
        },
{
    let mut i: usize = 0;
    assert(pairs@.skip(0) =~= pairs@);
    while i < pairs.len()
        invariant
            i <= pairs@.len(),
            lookup_classifier(pairs@, key@) == lookup_classifier(pairs@.skip(i as int), key@),
        decreases pairs@.len() - i,
    {
        assert(pairs@.skip(i as int).drop_first() =~= pairs@.skip(i + 1));
        assert(pairs@.skip(i as int)[0] == pairs@[i as int]);
        if crate::text::same_text(pairs[i].0.as_str(), key) {
            return Some(i);
        }
        i = i + 1;
    }
    assert(pairs@.skip(i as int) =~= Seq::<(String, DownloadArtifact)>::empty());
    None
}

pub open spec fn artifact_step(a: Option<DownloadArtifact>) -> Seq<LaunchStepView> {
    match a {
        Some(art) => match art.path {
            Some(p) => seq![LaunchStepView::Classpath { path: p@, warn_if_missing: true }],
            None => Seq::empty(),
        },
        None => Seq::empty(),
    }
}

pub open spec fn natives_step(c: Option<Vec<(String, DownloadArtifact)>>) -> Seq<LaunchStepView> {
    match c {
        Some(pairs) => match lookup_classifier(pairs@, "natives-linux"@) {
            Some(art) => match art.path {
                Some(p) => seq![LaunchStepView::Native { path: p@ }],
                None => Seq::empty(),
            },
            None => Seq::empty(),
        },
        None => Seq::empty(),
    }
}

/// What starting the game does for one library. With download information:
/// its artifact goes on the class path (with a warning if missing) and its
/// `natives-linux` classifier is extracted. Without: a Maven name with a
/// classifier is only extracted; a three-part name goes on the class path
/// and its `-natives-linux` variant is extracted; shorter names are ignored.
pub open spec fn launch_steps_of(lib: Library) -> Seq<LaunchStepView> {
    match lib.downloads {
        Some(d) => artifact_step(d.artifact) + natives_step(d.classifiers),
        None => {
            let parts = split_on(lib.name@, ':');
            if parts.len() > 3 {
                seq![LaunchStepView::Native { path: maven_path_of(lib.name@)->0 }]
            } else if parts.len() == 3 {
                seq![
                    LaunchStepView::Classpath {
                        path: maven_path_of(lib.name@)->0,
                        warn_if_missing: false,
                    },
                    LaunchStepView::Native { path: maven_natives_path_of(lib.name@)->0 },
                ]
            } else {
                Seq::empty()
            }
        },
    }
}

pub fn launch_steps(lib: &Library) -> (r: Vec<LaunchStep>)
    ensures
        step_views(r@) == launch_steps_of(*lib),
{
    let mut r: Vec<LaunchStep> = Vec::new();
    match &lib.downloads {
        Some(d) => {
            if let Some(art) = &d.artifact {
                if let Some(p) = &art.path {
                    r.push(LaunchStep::Classpath { path: p.clone(), warn_if_missing: true });
                }
            }
            let ghost first = r@;
            assert(step_views(first) =~= artifact_step(d.artifact));
            if let Some(pairs) = &d.classifiers {
                if let Some(i) = find_classifier(pairs, "natives-linux") {
                    if let Some(p) = &pairs[i].1.path {
                        r.push(LaunchStep::Native { path: p.clone() });
                    }
                }
            }
            assert(step_views(r@) =~= artifact_step(d.artifact) + natives_step(d.classifiers));
        },
        None => {
            let parts = split_text(lib.name.as_str(), ':');
            assert(views(parts@).len() == parts@.len());
            if parts.len() > 3 {
                if let Some(p) = maven_path(lib.name.as_str()) {
                    r.push(LaunchStep::Native { path: p });
                }
                assert(step_views(r@) =~= launch_steps_of(*lib));
            } else if parts.len() == 3 {
                if let Some(p) = maven_path(lib.name.as_str()) {
                    r.push(LaunchStep::Classpath { path: p, warn_if_missing: false });
                }
                if let Some(p) = maven_natives_path(lib.name.as_str()) {
                    r.push(LaunchStep::Native { path: p });
                }
                assert(step_views(r@) =~= launch_steps_of(*lib));
            } else {
                assert(step_views(r@) =~= launch_steps_of(*lib));
            }
        },
    }
    r
}

/// An entry of a native archive that is not extracted: a directory, or
/// anything under `META-INF`.
pub fn native_entry_skipped(is_dir: bool, name: &str) -> (r: bool)
    ensures
        r == (is_dir || has_infix(name@, "META-INF"@)),
{
    is_dir || contains_text(name, "META-INF")
}

// ---------------------------------------------------------------------------
// Class path
// ---------------------------------------------------------------------------

/// The entries in order with later repetitions dropped.
pub open spec fn dedup(s: Seq<Seq<char>>) -> Seq<Seq<char>>
    decreases s.len(),
{
    if s.len() == 0 {
        Seq::empty()
    } else {
        let d = dedup(s.drop_last());
        if d.contains(s.last()) {
            d
        } else {
            d.push(s.last())
        }
    }
}

fn contains_string(v: &Vec<String>, x: &String) -> (r: bool)
    ensures
        r == views(v@).contains(x@),
{
    let mut i: usize = 0;
    while i < v.len()
        invariant
            i <= v@.len(),
            forall|k: int| 0 <= k < i ==> v@[k]@ != x@,
        decreases v@.len() - i,
    {
        if v[i] == *x {
            assert(views(v@)[i as int] == x@);
            return true;
        }
        i = i + 1;
    }
    assert forall|k: int| 0 <= k < views(v@).len() implies views(v@)[k] != x@ by {
        assert(views(v@)[k] == v@[k]@);
    }
    false
}

/// The class path entries with repetitions removed, first occurrences kept
/// in order.
pub fn dedup_entries(entries: Vec<String>) -> (r: Vec<String>)
    ensures
        views(r@) == dedup(views(entries@)),
{
    let mut r: Vec<String> = Vec::new();
    let mut rest = entries;
    let n = rest.len();
    let mut i: usize = 0;
    assert(entries@.skip(0) =~= entries@);
    while i < n
        invariant
            n == entries@.len(),
            i <= n,
            rest@ == entries@.skip(i as int),
            views(r@) == dedup(views(entries@.take(i as int))),
        decreases n - i,
    {
        let e = rest.remove(0);
        assert(e == entries@[i as int]);
        assert(rest@ =~= entries@.skip(i + 1));
        assert(views(entries@.take(i + 1)).drop_last() =~= views(entries@.take(i as int)));
        assert(views(entries@.take(i + 1)).last() == e@);
        if !contains_string(&r, &e) {
            let ghost before = r@;
            r.push(e);
            assert(views(r@) =~= views(before).push(e@));
        }
        i = i + 1;
    }
    assert(entries@.take(n as int) =~= entries@);
    r
}

/// Removing repetitions leaves each entry once and loses none.
pub proof fn lemma_dedup(s: Seq<Seq<char>>)
    ensures
        dedup(s).no_duplicates(),
        forall|x: Seq<char>| #[trigger] dedup(s).contains(x) <==> s.contains(x),
    decreases s.len(),
{
    if s.len() > 0 {
        let p = s.drop_last();
        lemma_dedup(p);
        let d = dedup(p);
        assert forall|x: Seq<char>| #[trigger] dedup(s).contains(x) <==> s.contains(x) by {
            if s.contains(x) && x != s.last() {
                let k = choose|k: int| 0 <= k < s.len() && s[k] == x;
                assert(p[k] == x);
            }
            if p.contains(x) {
                let k = choose|k: int| 0 <= k < p.len() && p[k] == x;
                assert(s[k] == x);
            }
            if !d.contains(s.last()) {
                if d.push(s.last()).contains(x) && x != s.last() {
                    let k = choose|k: int| 0 <= k < d.push(s.last()).len() && d.push(s.last())[k] == x;
                    assert(d[k] == x);
                }
                if x == s.last() {
                    assert(d.push(s.last())[d.len() as int] == x);
                }
                if d.contains(x) {
                    let k = choose|k: int| 0 <= k < d.len() && d[k] == x;
                    assert(d.push(s.last())[k] == x);
                }
            }
            assert(s[s.len() - 1] == s.last());
        }
    }
}

/// The class path: the entries without repetitions, joined with `:`.
pub fn classpath_text(entries: Vec<String>) -> (r: String)
    ensures
        r@ == join(dedup(views(entries@)), ":"@),
{
    let unique = dedup_entries(entries);
    join_text(&unique, ":")
}

/// The steps of all libraries, library after library.
pub open spec fn library_steps(libs: Seq<Library>) -> Seq<LaunchStepView>
    decreases libs.len(),
{
    if libs.len() == 0 {
        Seq::empty()
    } else {
        library_steps(libs.drop_last()) + launch_steps_of(libs.last())
    }
}

/// What the game start does for each library of a version, in order.
pub fn all_launch_steps(libs: &Vec<Library>) -> (r: Vec<LaunchStep>)
    ensures
        step_views(r@) == library_steps(libs@),
{
    let mut r: Vec<LaunchStep> = Vec::new();
    let mut i: usize = 0;
    while i < libs.len()
        invariant
            i <= libs.len(),
            step_views(r@) == library_steps(libs@.take(i as int)),
        decreases libs.len() - i,
    {
        let mut steps = launch_steps(&libs[i]);
        let ghost before = r@;
        let ghost added = steps@;
        r.append(&mut steps);
        assert(libs@.take(i + 1).drop_last() =~= libs@.take(i as int));
        assert(step_views(r@) =~= step_views(before) + step_views(added));
        i = i + 1;
    }
    assert(libs@.take(libs.len() as int) =~= libs@);
    r
}

/// The class-path entries of some steps, in order: under the libraries
/// directory, the jar of each class-path step whose file is present
/// (`present` holds, step by step, whether that step's file exists).
pub open spec fn classpath_of(dir: Seq<char>, steps: Seq<LaunchStepView>, present: Seq<bool>) -> Seq<
    Seq<char>,
>
    decreases steps.len(),
{
    if steps.len() == 0 {
        Seq::empty()
    } else {
        let rest = classpath_of(dir, steps.drop_last(), present.take(steps.len() - 1));
        match steps.last() {
            LaunchStepView::Classpath { path, .. } => if present[steps.len() - 1] {
                rest.push(path_join(dir, path))
            } else {
                rest
            },
            LaunchStepView::Native { .. } => rest,
        }
    }
}

/// The class-path entries of the steps whose files are present.
pub fn classpath_entries(libraries_dir: &str, steps: &Vec<LaunchStep>, present: &Vec<bool>) -> (r: Vec<String>)
    requires
        present.len() == steps.len(),
    ensures
        views(r@) == classpath_of(libraries_dir@, step_views(steps@), present@),
{
    let mut r: Vec<String> = Vec::new();
    let mut i: usize = 0;
    while i < steps.len()
        invariant
            i <= steps.len(),
            present.len() == steps.len(),
            views(r@) == classpath_of(libraries_dir@, step_views(steps@.take(i as int)), present@.take(i as int)),
        decreases steps.len() - i,
    {
        let ghost before = r@;
        let ghost sv = step_views(steps@.take(i + 1));
        assert(sv.drop_last() =~= step_views(steps@.take(i as int)));
        assert(sv.last() == steps@[i as int]@);
        assert(present@.take(i + 1).take(i as int) =~= present@.take(i as int));
        assert(present@.take(i + 1)[i as int] == present@[i as int]);
        match &steps[i] {
            LaunchStep::Classpath { path, warn_if_missing: _ } => {
                if present[i] {
                    let full = join_path(libraries_dir, path.as_str());
                    r.push(full);
                    assert(views(r@) =~= views(before).push(full@));
                }
            },
            LaunchStep::Native { path: _ } => {},
        }
        i = i + 1;
    }
    assert(steps@.take(steps.len() as int) =~= steps@);
    assert(present@.take(present.len() as int) =~= present@);
    r
}

/// A present file as a list of at most one entry.
pub open spec fn opt_entry(o: Option<String>) -> Seq<Seq<char>> {
    match o {
        Some(s) => seq![s@],
        None => Seq::empty(),
    }
}

/// The class path of a launch: the present library jars in step order, then
/// the client jar where it exists, without repetitions, joined with `:`.
pub fn launch_classpath(
    libraries_dir: &str,
    steps: &Vec<LaunchStep>,
    present: &Vec<bool>,
    client_jar: Option<String>,
) -> (r: String)
    requires
        present.len() == steps.len(),
    ensures
        r@ == join(
            dedup(classpath_of(libraries_dir@, step_views(steps@), present@) + opt_entry(client_jar)),
            ":"@,
        ),
{
    let mut entries = classpath_entries(libraries_dir, steps, present);
    let ghost e = entries@;
    match client_jar {
        Some(c) => {
            let ghost cv = c@;
            entries.push(c);
            assert(views(entries@) =~= views(e) + seq![cv]);
        },
        None => {
            assert(views(entries@) =~= views(e) + Seq::<Seq<char>>::empty());
        },
    }
    classpath_text(entries)
}

// ---------------------------------------------------------------------------
// Command line
// ---------------------------------------------------------------------------

/// The Java command line that starts the game. Ely.by accounts run through
/// authlib-injector at `authlib_path`, which is ignored otherwise.
pub open spec fn launch_arguments_of(
    memory_mb: u32,
    natives_dir: Seq<char>,
    authlib_path: Seq<char>,
    classpath: Seq<char>,
    main_class: Seq<char>,
    version_id: Seq<char>,
    game_dir: Seq<char>,
    assets_dir: Seq<char>,
    asset_index_id: Seq<char>,
    auth: AuthData,
) -> Seq<Seq<char>> {
    let jvm = seq!["-Xmx"@ + decimal(memory_mb as nat) + "M"@, "-Djava.library.path="@ + natives_dir];
    let agent = if auth.auth_type == AuthType::ElyBy {
        seq![
            "-javaagent:"@ + authlib_path + "=https://authlib.ely.by"@,
            "--add-opens"@,
            "java.base/java.net=ALL-UNNAMED"@,
            "--add-exports"@,
            "java.base/sun.security.util=ALL-UNNAMED"@,
        ]
    } else {
        Seq::empty()
    };
    let game = seq![
        "-cp"@,
        classpath,
        main_class,
        "--version"@,
        version_id,
        "--gameDir"@,
        game_dir,
        "--assetsDir"@,
        assets_dir,
        "--assetIndex"@,
        asset_index_id,
        "--uuid"@,
        auth.uuid@,
        "--accessToken"@,
        auth.access_token@,
        "--userType"@,
        "msa"@,
        "--versionType"@,
        "release"@,
        "--username"@,
        auth.username@,
    ];
    jvm + agent + game
}

pub fn launch_arguments(
    memory_mb: u32,
    natives_dir: &str,
    authlib_path: &str,
    classpath: &str,
    main_class: &str,
    version_id: &str,
    game_dir: &str,
    assets_dir: &str,
    asset_index_id: &str,
    auth: &AuthData,
) -> (r: Vec<String>)
    ensures
        views(r@) == launch_arguments_of(
            memory_mb,
            natives_dir@,
            authlib_path@,
            classpath@,
            main_class@,
            version_id@,
            game_dir@,
            assets_dir@,
            asset_index_id@,
            *auth,
        ),
{
    let mut args: Vec<String> = Vec::new();
    let mem = u32_to_string(memory_mb);
    args.push(concat3("-Xmx", mem.as_str(), "M"));
    args.push(concat2("-Djava.library.path=", natives_dir));
    let ghost jvm = views(args@);
    if auth.auth_type == AuthType::ElyBy {
        args.push(concat3("-javaagent:", authlib_path, "=https://authlib.ely.by"));
        args.push(text("--add-opens"));
        args.push(text("java.base/java.net=ALL-UNNAMED"));
        args.push(text("--add-exports"));
        args.push(text("java.base/sun.security.util=ALL-UNNAMED"));
    }
    let ghost agent_end = views(args@);
    args.push(text("-cp"));
    args.push(text(classpath));
    args.push(text(main_class));
    args.push(text("--version"));
    args.push(text(version_id));
    args.push(text("--gameDir"));
    args.push(text(game_dir));
    args.push(text("--assetsDir"));
    args.push(text(assets_dir));
    args.push(text("--assetIndex"));
    args.push(text(asset_index_id));
    args.push(text("--uuid"));
    args.push(auth.uuid.clone());
    args.push(text("--accessToken"));
    args.push(auth.access_token.clone());
    args.push(text("--userType"));
    args.push(text("msa"));
    args.push(text("--versionType"));
    args.push(text("release"));
    args.push(text("--username"));
    args.push(auth.username.clone());
    assert(views(args@) =~= launch_arguments_of(
        memory_mb,
        natives_dir@,
        authlib_path@,
        classpath@,
        main_class@,
        version_id@,
        game_dir@,
        assets_dir@,
        asset_index_id@,
        *auth,
    ));
    args
}

/// The line recorded in `debug_launch.txt`: `Command: <java> <args...>`.
pub fn debug_command_line(java_path: &str, args: &Vec<String>) -> (r: String)
    ensures
        r@ == "Command: "@ + java_path@ + " "@ + join(views(args@), " "@),
{
    let joined = join_text(args, " ");
    crate::text::concat4("Command: ", java_path, " ", joined.as_str())
}

} // verus!
