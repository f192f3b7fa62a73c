//! Installing versions, Fabric and modpacks: which libraries a version needs
//! after Fabric is laid over it, where Maven libraries and assets live, and
//! when a file on disk can be kept.
use vstd::prelude::*;
use vstd::utf8::{decode_utf8, encode_utf8_decode_utf8, is_char_boundary};
use vstd::string::StringSliceAdditionalSpecFns;
use crate::text::{
    concat2, concat3, concat5, join, replace_char, replace_char_text, same_text, split_on,
    split_text, text, views,
};
use crate::versions::{Library, VersionMetadata};
use crate::fabric::FabricProfile;
use crate::digest::{hex_encode, hex_lower, sha1_compute, sha1_digest};

verus! {

// ---------------------------------------------------------------------------
// Library keys
// ---------------------------------------------------------------------------

/// The identity of a library for merging: `group:artifact`, or
/// `group:artifact:classifier` when the name carries a classifier, or the
/// whole name when it has no `:`.
pub open spec fn library_key_of(name: Seq<char>) -> Seq<char> {
    let parts = split_on(name, ':');
    if parts.len() > 3 {
        parts[0] + ":"@ + parts[1] + ":"@ + parts[3]
    } else if parts.len() >= 2 {
        parts[0] + ":"@ + parts[1]
    } else {
        name
    }
}

pub open spec fn key_of(lib: Library) -> Seq<char> {
    library_key_of(lib.name@)
}

pub fn library_key(name: &str) -> (k: String)
    ensures
        k@ == library_key_of(name@),
{
    let parts = split_text(name, ':');
    assert(views(parts@).len() == parts@.len());
    if parts.len() > 3 {
        assert(views(parts@)[0] == parts@[0]@);
        assert(views(parts@)[1] == parts@[1]@);
        assert(views(parts@)[3] == parts@[3]@);
        concat5(parts[0].as_str(), ":", parts[1].as_str(), ":", parts[3].as_str())
    } else if parts.len() >= 2 {
        assert(views(parts@)[0] == parts@[0]@);
        assert(views(parts@)[1] == parts@[1]@);
        concat3(parts[0].as_str(), ":", parts[1].as_str())
    } else {
        text(name)
    }
}

// ---------------------------------------------------------------------------
// Merging the Fabric libraries into a version's libraries
// ---------------------------------------------------------------------------

/// Each library of `libs`, in order, stored under its key; a later library
/// replaces an earlier one with the same key.
pub open spec fn insert_libraries(m: Map<Seq<char>, Library>, libs: Seq<Library>) -> Map<
    Seq<char>,
    Library,
>
    decreases libs.len(),
{
    if libs.len() == 0 {
        m
    } else {
        let prev = insert_libraries(m, libs.drop_last());
        prev.insert(key_of(libs.last()), libs.last())
    }
}

/// Whether a Fabric library keeps the downloads of the library it replaces:
/// same name, no downloads of its own, and the replaced one has some.
pub open spec fn keeps_downloads(m: Map<Seq<char>, Library>, lib: Library) -> bool {
    let k = key_of(lib);
    &&& m.contains_key(k)
    &&& lib.name@ == m[k].name@
    &&& lib.downloads is None
    &&& m[k].downloads is Some
}

/// One Fabric library laid over the map.
pub open spec fn overlay_step(m: Map<Seq<char>, Library>, lib: Library) -> Map<Seq<char>, Library> {
    let k = key_of(lib);
    if keeps_downloads(m, lib) {
        m.insert(k, Library { name: lib.name, downloads: m[k].downloads })
    } else {
        m.insert(k, lib)
    }
}

pub open spec fn overlay_libraries(m: Map<Seq<char>, Library>, libs: Seq<Library>) -> Map<
    Seq<char>,
    Library,
>
    decreases libs.len(),
{
    if libs.len() == 0 {
        m
    } else {
        overlay_step(overlay_libraries(m, libs.drop_last()), libs.last())
    }
}

/// The libraries of a version with a Fabric profile laid over them, by key.
pub open spec fn merged_libraries(vanilla: Seq<Library>, fabric: Seq<Library>) -> Map<
    Seq<char>,
    Library,
> {
    overlay_libraries(insert_libraries(Map::empty(), vanilla), fabric)
}

pub open spec fn distinct_keys(s: Seq<Library>) -> bool {
    forall|i: int, j: int|
        0 <= i < s.len() && 0 <= j < s.len() && i != j ==> key_of(#[trigger] s[i]) != key_of(
            #[trigger] s[j],
        )
}

/// `s` lists the entries of `m`: one library per key, each the one `m` holds.
pub open spec fn lists(s: Seq<Library>, m: Map<Seq<char>, Library>) -> bool {
    &&& distinct_keys(s)
    &&& forall|i: int|
        0 <= i < s.len() ==> m.contains_key(key_of(#[trigger] s[i])) && m[key_of(s[i])] == s[i]
    &&& forall|k: Seq<char>| #[trigger]
        m.contains_key(k) ==> exists|i: int| 0 <= i < s.len() && key_of(#[trigger] s[i]) == k
}

proof fn lemma_lists_replace(s: Seq<Library>, m: Map<Seq<char>, Library>, j: int, lib: Library)
    requires
        lists(s, m),
        0 <= j < s.len(),
        key_of(s[j]) == key_of(lib),
    ensures
        lists(s.update(j, lib), m.insert(key_of(lib), lib)),
{
    let s2 = s.update(j, lib);
    let m2 = m.insert(key_of(lib), lib);
    assert forall|i: int| 0 <= i < s2.len() implies m2.contains_key(key_of(#[trigger] s2[i]))
        && m2[key_of(s2[i])] == s2[i] by {
        if i != j {
            assert(s2[i] == s[i]);
            assert(key_of(s[i]) != key_of(s[j]));
        }
    }
    assert forall|k: Seq<char>| #[trigger] m2.contains_key(k) implies exists|i: int|
        0 <= i < s2.len() && key_of(#[trigger] s2[i]) == k by {
        if k == key_of(lib) {
            assert(key_of(s2[j]) == k);
        } else {
            assert(m.contains_key(k));
            let i = choose|i: int| 0 <= i < s.len() && key_of(#[trigger] s[i]) == k;
            assert(i != j);
            assert(key_of(s2[i]) == k);
        }
    }
    assert forall|a: int, b: int|
        0 <= a < s2.len() && 0 <= b < s2.len() && a != b implies key_of(#[trigger] s2[a])
        != key_of(#[trigger] s2[b]) by {
        if a != j && b != j {
            assert(s2[a] == s[a] && s2[b] == s[b]);
        } else if a == j {
            assert(s2[b] == s[b]);
            assert(key_of(s[j]) != key_of(s[b]));
        } else {
            assert(s2[a] == s[a]);
            assert(key_of(s[j]) != key_of(s[a]));
        }
    }
}

proof fn lemma_lists_push(s: Seq<Library>, m: Map<Seq<char>, Library>, lib: Library)
    requires
        lists(s, m),
        forall|i: int| 0 <= i < s.len() ==> key_of(#[trigger] s[i]) != key_of(lib),
    ensures
        lists(s.push(lib), m.insert(key_of(lib), lib)),
{
    let s2 = s.push(lib);
    let m2 = m.insert(key_of(lib), lib);
    assert forall|i: int| 0 <= i < s2.len() implies m2.contains_key(key_of(#[trigger] s2[i]))
        && m2[key_of(s2[i])] == s2[i] by {
        if i < s.len() {
            assert(s2[i] == s[i]);
        }
    }
    assert forall|k: Seq<char>| #[trigger] m2.contains_key(k) implies exists|i: int|
        0 <= i < s2.len() && key_of(#[trigger] s2[i]) == k by {
        if k == key_of(lib) {
            assert(key_of(s2[s.len() as int]) == k);
        } else {
            assert(m.contains_key(k));
            let i = choose|i: int| 0 <= i < s.len() && key_of(#[trigger] s[i]) == k;
            assert(s2[i] == s[i]);
        }
    }
    assert forall|a: int, b: int|
        0 <= a < s2.len() && 0 <= b < s2.len() && a != b implies key_of(#[trigger] s2[a])
        != key_of(#[trigger] s2[b]) by {
        if a < s.len() && b < s.len() {
            assert(s2[a] == s[a] && s2[b] == s[b]);
        } else if a < s.len() {
            assert(s2[a] == s[a]);
        } else {
            assert(s2[b] == s[b]);
        }
    }
}

/// The position of `key` among `keys`, if it occurs.
fn find_key(keys: &Vec<String>, key: &String) -> (r: Option<usize>)
    ensures
        match r {
            Some(j) => j < keys@.len() && keys@[j as int]@ == key@,
            None => forall|i: int| 0 <= i < keys@.len() ==> keys@[i]@ != key@,
        },
{
    let mut j: usize = 0;
    while j < keys.len()
        invariant
            j <= keys@.len(),
            forall|i: int| 0 <= i < j ==> keys@[i]@ != key@,
        decreases keys@.len() - j,
    {
        if keys[j] == *key {
            return Some(j);
        }
        j = j + 1;
    }
    None
}

/// The libraries of a version after a Fabric profile's libraries are laid
/// over them. Libraries are identified by `library_key`; a later one
/// replaces an earlier one with the same key, and a Fabric library with the
/// same name as the one it replaces and no downloads of its own keeps the
/// replaced one's downloads. The result holds one library per key, in no
/// particular order.
pub fn merge_libraries(vanilla: Vec<Library>, fabric: Vec<Library>) -> (r: Vec<Library>)
    ensures
        lists(r@, merged_libraries(vanilla@, fabric@)),
{
    let mut out: Vec<Library> = Vec::new();
    let mut keys: Vec<String> = Vec::new();
    let ghost empty = Map::<Seq<char>, Library>::empty();
    let mut rest = vanilla;
    let n = rest.len();
    let mut i: usize = 0;
    assert(vanilla@.skip(0) =~= vanilla@);
    while i < n
        invariant
            n == vanilla@.len(),
            i <= n,
            rest@ == vanilla@.skip(i as int),
            keys@.len() == out@.len(),
            forall|k: int| 0 <= k < keys@.len() ==> #[trigger] keys@[k]@ == key_of(out@[k]),
            lists(out@, insert_libraries(empty, vanilla@.take(i as int))),
        decreases n - i,
    {
        let lib = rest.remove(0);
        assert(lib == vanilla@[i as int]);
        assert(rest@ =~= vanilla@.skip(i + 1));
        assert(vanilla@.take(i + 1).drop_last() =~= vanilla@.take(i as int));
        assert(vanilla@.take(i + 1).last() == lib);
        let ghost m = insert_libraries(empty, vanilla@.take(i as int));
        let key = library_key(lib.name.as_str());
        match find_key(&keys, &key) {
            Some(j) => {
                proof {
                    lemma_lists_replace(out@, m, j as int, lib);
                }
                out.set(j, lib);
            },
            None => {
                proof {
                    assert forall|t: int| 0 <= t < out@.len() implies key_of(#[trigger] out@[t])
                        != key_of(lib) by {
                        assert(keys@[t]@ == key_of(out@[t]));
                    }
                    lemma_lists_push(out@, m, lib);
                }
                out.push(lib);
                keys.push(key);
            },
        }
        i = i + 1;
    }
    assert(vanilla@.take(n as int) =~= vanilla@);
    let ghost base = insert_libraries(empty, vanilla@);
    let mut rest = fabric;
    let n = rest.len();
    let mut i: usize = 0;
    assert(fabric@.skip(0) =~= fabric@);
    assert(fabric@.take(0) =~= Seq::<Library>::empty());
    while i < n
        invariant
            n == fabric@.len(),
            i <= n,
            rest@ == fabric@.skip(i as int),
            keys@.len() == out@.len(),
            forall|k: int| 0 <= k < keys@.len() ==> #[trigger] keys@[k]@ == key_of(out@[k]),
            lists(out@, overlay_libraries(base, fabric@.take(i as int))),
        decreases n - i,
    {
        let lib = rest.remove(0);
        assert(lib == fabric@[i as int]);
        assert(rest@ =~= fabric@.skip(i + 1));
        assert(fabric@.take(i + 1).drop_last() =~= fabric@.take(i as int));
        assert(fabric@.take(i + 1).last() == lib);
        let ghost m = overlay_libraries(base, fabric@.take(i as int));
        let key = library_key(lib.name.as_str());
        match find_key(&keys, &key) {
            Some(j) => {
                let keep = lib.name == out[j].name && lib.downloads.is_none()
                    && out[j].downloads.is_some();
                assert(m.contains_key(key_of(lib)) && m[key_of(lib)] == out@[j as int]);
                if keep {
                    assert(keeps_downloads(m, lib));
                    let ghost prev = out@;
                    let old_lib = out.remove(j);
                    let merged = Library { name: lib.name, downloads: old_lib.downloads };
                    proof {
                        let s0 = out@.insert(j as int, old_lib);
                        assert(s0 =~= prev);
                        assert(key_of(merged) == key_of(lib));
                        lemma_lists_replace(s0, m, j as int, merged);
                        assert(s0.update(j as int, merged) =~= out@.insert(j as int, merged));
                    }
                    out.insert(j, merged);
                } else {
                    assert(!keeps_downloads(m, lib));
                    proof {
                        lemma_lists_replace(out@, m, j as int, lib);
                    }
                    out.set(j, lib);
                }
            },
            None => {
                proof {
                    assert forall|t: int| 0 <= t < out@.len() implies key_of(#[trigger] out@[t])
                        != key_of(lib) by {
                        assert(keys@[t]@ == key_of(out@[t]));
                    }
                    if m.contains_key(key_of(lib)) {
                        let t = choose|t: int| 0 <= t < out@.len() && key_of(#[trigger] out@[t]) == key_of(lib);
                    }
                    assert(!keeps_downloads(m, lib));
                    lemma_lists_push(out@, m, lib);
                }
                out.push(lib);
                keys.push(key);
            },
        }
        i = i + 1;
    }
    assert(fabric@.take(n as int) =~= fabric@);
    out
}


/// A version's metadata with a Fabric profile applied: merged libraries,
/// Fabric's main class, and the id `<game>-fabric-<loader>`.
pub fn apply_fabric_profile(
    metadata: VersionMetadata,
    profile: FabricProfile,
    game_version: &str,
    loader_version: &str,
) -> (r: VersionMetadata)
    ensures
        lists(r.libraries@, merged_libraries(metadata.libraries@, profile.libraries@)),
        r.main_class == profile.main_class,
        r.id@ == game_version@ + "-fabric-"@ + loader_version@,
        r.downloads == metadata.downloads,
        r.asset_index == metadata.asset_index,
{
    let VersionMetadata { id: _, libraries, main_class: _, downloads, asset_index } = metadata;
    let FabricProfile { id: _, inherits_from: _, main_class, libraries: fabric_libraries } = profile;
    VersionMetadata {
        id: concat3(game_version, "-fabric-", loader_version),
        libraries: merge_libraries(libraries, fabric_libraries),
        main_class,
        downloads,
        asset_index,
    }
}

// ---------------------------------------------------------------------------
// Maven coordinates
// ---------------------------------------------------------------------------

/// `group` with dots turned into slashes, then `artifact` and `version`.
pub open spec fn maven_dir(parts: Seq<Seq<char>>) -> Seq<char> {
    replace_char(parts[0], '.', '/') + "/"@ + parts[1] + "/"@ + parts[2]
}

/// `artifact-version.jar`, or `artifact-version-classifier.jar`.
pub open spec fn maven_file(parts: Seq<Seq<char>>) -> Seq<char> {
    if parts.len() > 3 {
        parts[1] + "-"@ + parts[2] + "-"@ + parts[3] + ".jar"@
    } else {
        parts[1] + "-"@ + parts[2] + ".jar"@
    }
}

/// Where a library named `group:artifact:version[:classifier]` lives in a
/// Maven repository; `None` for a name with fewer than three parts.
pub open spec fn maven_path_of(name: Seq<char>) -> Option<Seq<char>> {
    let parts = split_on(name, ':');
    if parts.len() >= 3 {
        Some(maven_dir(parts) + "/"@ + maven_file(parts))
    } else {
        None
    }
}

/// Where the Linux natives of a three-part library live:
/// `<dir>/artifact-version-natives-linux.jar`.
pub open spec fn maven_natives_path_of(name: Seq<char>) -> Option<Seq<char>> {
    let parts = split_on(name, ':');
    if parts.len() == 3 {
        Some(maven_dir(parts) + "/"@ + parts[1] + "-"@ + parts[2] + "-natives-linux.jar"@)
    } else {
        None
    }
}

fn maven_dir_text(parts: &Vec<String>) -> (r: String)
    requires
        parts@.len() >= 3,
    ensures
        r@ == maven_dir(views(parts@)),
{
    assert(views(parts@)[0] == parts@[0]@);
    assert(views(parts@)[1] == parts@[1]@);
    assert(views(parts@)[2] == parts@[2]@);
    let mut r = replace_char_text(parts[0].as_str(), '.', '/');
    r.append("/");
    r.append(parts[1].as_str());
    r.append("/");
    r.append(parts[2].as_str());
    r
}

/// The repository path of a Maven library, if its name has three parts or more.
pub fn maven_path(name: &str) -> (r: Option<String>)
    ensures
        match r {
            Some(p) => maven_path_of(name@) == Some(p@),
            None => maven_path_of(name@) is None,
        },
{
    let parts = split_text(name, ':');
    assert(views(parts@).len() == parts@.len());
    if parts.len() < 3 {
        return None;
    }
    assert(views(parts@)[1] == parts@[1]@);
    assert(views(parts@)[2] == parts@[2]@);
    let mut r = maven_dir_text(&parts);
    r.append("/");
    r.append(parts[1].as_str());
    r.append("-");
    r.append(parts[2].as_str());
    if parts.len() > 3 {
        assert(views(parts@)[3] == parts@[3]@);
        r.append("-");
        r.append(parts[3].as_str());
    }
    r.append(".jar");
    Some(r)
}

/// The repository path of the Linux natives of a three-part Maven library.
pub fn maven_natives_path(name: &str) -> (r: Option<String>)
    ensures
        match r {
            Some(p) => maven_natives_path_of(name@) == Some(p@),
            None => maven_natives_path_of(name@) is None,
        },
{
    let parts = split_text(name, ':');
    assert(views(parts@).len() == parts@.len());
    if parts.len() != 3 {
        return None;
    }
    assert(views(parts@)[1] == parts@[1]@);
    assert(views(parts@)[2] == parts@[2]@);
    let mut r = maven_dir_text(&parts);
    r.append("/");
    r.append(parts[1].as_str());
    r.append("-");
    r.append(parts[2].as_str());
    r.append("-natives-linux.jar");
    Some(r)
}

/// The Maven repositories tried in turn for a library without download
/// information.
pub open spec fn maven_repositories() -> Seq<Seq<char>> {
    seq![
        "https://maven.fabricmc.net/"@,
        "https://libraries.minecraft.net/"@,
        "https://repo1.maven.org/maven2/"@,
    ]
}

/// The URLs to try, in order, for a repository path.
pub fn maven_download_urls(rel_path: &str) -> (r: Vec<String>)
    ensures
        r@.len() == 3,
        forall|i: int| 0 <= i < 3 ==> #[trigger] r@[i]@ == maven_repositories()[i] + rel_path@,
{
    let mut r: Vec<String> = Vec::new();
    r.push(concat2("https://maven.fabricmc.net/", rel_path));
    r.push(concat2("https://libraries.minecraft.net/", rel_path));
    r.push(concat2("https://repo1.maven.org/maven2/", rel_path));
    r
}

/// A Maven library is fetched unless a non-empty file is already there.
pub fn maven_needs_download(existing_len: Option<u64>) -> (r: bool)
    ensures
        r == !(existing_len matches Some(n) && n > 0),
{
    match existing_len {
        Some(n) => n == 0,
        None => true,
    }
}

// ---------------------------------------------------------------------------
// Verified downloads
// ---------------------------------------------------------------------------

/// A file has the expected size and its SHA-1, in lower-case hex, is the
/// expected one.
pub open spec fn file_is_intact(data: Seq<u8>, size: u64, sha1_hex: Seq<char>) -> bool {
    data.len() == size && hex_lower(sha1_digest(data)) == sha1_hex
}

/// Whether a file already on disk can be kept instead of downloaded again.
pub fn existing_file_is_intact(data: &[u8], expected_size: u64, expected_sha1: &str) -> (r: bool)
    ensures
        r == file_is_intact(data@, expected_size, expected_sha1@),
{
    if data.len() as u64 != expected_size {
        return false;
    }
    let digest = sha1_compute(data);
    let hex = hex_encode(digest.as_slice());
    same_text(hex.as_str(), expected_sha1)
}

/// A download is refused when a size was expected (non-zero) and the
/// received length differs: `Size mismatch`.
pub fn check_download_size(len: usize, expected_size: u64) -> (r: Result<(), String>)
    ensures
        r is Err <==> (expected_size > 0 && len != expected_size),
        r matches Err(e) ==> e@ == "Size mismatch"@,
{
    if expected_size > 0 && len as u64 != expected_size {
        Err(text("Size mismatch"))
    } else {
        Ok(())
    }
}

/// A fresh download is kept when it has the expected size (where one is
/// given, that is non-zero) and its SHA-1, in lower-case hex, is the
/// expected one.
pub open spec fn download_accepted(data: Seq<u8>, size: u64, sha1_hex: Seq<char>) -> bool {
    (size == 0 || data.len() == size) && hex_lower(sha1_digest(data)) == sha1_hex
}

/// Checks a fresh download: `Size mismatch` where a size was expected and
/// the length differs, else `SHA1 mismatch` where the digest differs.
pub fn check_download(data: &[u8], expected_size: u64, expected_sha1: &str) -> (r: Result<(), String>)
    ensures
        r is Ok <==> download_accepted(data@, expected_size, expected_sha1@),
        r matches Err(e) ==> e@ == (if expected_size > 0 && data@.len() != expected_size {
            "Size mismatch"@
        } else {
            "SHA1 mismatch"@
        }),
{
    check_download_size(data.len(), expected_size)?;
    let digest = sha1_compute(data);
    let hex = hex_encode(digest.as_slice());
    if same_text(hex.as_str(), expected_sha1) {
        Ok(())
    } else {
        Err(text("SHA1 mismatch"))
    }
}

// ---------------------------------------------------------------------------
// Assets
// ---------------------------------------------------------------------------

/// The characters of the first two bytes of an asset hash.
pub open spec fn hash_prefix(hash: &str) -> Seq<char> {
    decode_utf8(hash.spec_bytes().subrange(0, 2))
}

pub open spec fn asset_base_url() -> Seq<char> {
    "https://resources.download.minecraft.net/"@
}

/// Where an asset object lives under `objects`, `<first two bytes>/<hash>`,
/// and the URL it is downloaded from. The hash must have a character
/// boundary after its second byte, as slicing it there requires.
pub fn asset_object_location(hash: &str) -> (r: (String, String))
    requires
        is_char_boundary(hash.spec_bytes(), 2),
    ensures
        r.0@ == hash_prefix(hash) + "/"@ + hash@,
        r.1@ == asset_base_url() + hash_prefix(hash) + "/"@ + hash@,
{
    let (prefix, _) = hash.split_at(2);
    proof {
        encode_utf8_decode_utf8(prefix@);
        assert(prefix.spec_bytes() =~= hash.spec_bytes().subrange(0, 2));
        assert(prefix@ == hash_prefix(hash));
    }
    let rel = concat3(prefix, "/", hash);
    let url = concat4_url(prefix, hash);
    (rel, url)
}

fn concat4_url(prefix: &str, hash: &str) -> (r: String)
    ensures
        r@ == asset_base_url() + prefix@ + "/"@ + hash@,
{
    crate::text::concat4("https://resources.download.minecraft.net/", prefix, "/", hash)
}

/// An asset or modpack file is fetched unless a file of the expected size
/// is already there.
pub fn sized_file_needs_download(existing_len: Option<u64>, expected_size: u64) -> (r: bool)
    ensures
        r == !(existing_len == Some(expected_size)),
{
    match existing_len {
        Some(n) => n != expected_size,
        None => true,
    }
}

// ---------------------------------------------------------------------------
// authlib-injector
// ---------------------------------------------------------------------------

/// Where authlib-injector is downloaded from.
pub fn authlib_injector_url() -> (r: String)
    ensures
        r@ == "https://github.com/yushijinhun/authlib-injector/releases/download/v1.2.5/authlib-injector-1.2.5.jar"@,
{
    text("https://github.com/yushijinhun/authlib-injector/releases/download/v1.2.5/authlib-injector-1.2.5.jar")
}

/// The SHA-1 of authlib-injector 1.2.5.
pub fn authlib_injector_sha1() -> (r: String)
    ensures
        r@ == "4b95433462f51a623394928d5323793245818d07"@,
{
    text("4b95433462f51a623394928d5323793245818d07")
}

/// `<libraries>/authlib-injector.jar`.
pub fn authlib_injector_path_in(libraries_dir: &str) -> (r: String)
    ensures
        r@ == crate::paths::path_join(libraries_dir@, "authlib-injector.jar"@),
{
    crate::paths::join_path(libraries_dir, "authlib-injector.jar")
}


// ---------------------------------------------------------------------------
// Fetching libraries
// ---------------------------------------------------------------------------

/// How one library is fetched.
#[derive(Debug)]
pub enum LibraryFetch {
    /// Download `url` to `path` (relative to the libraries directory),
    /// checked against `size` and `sha1`.
    Verified { path: String, url: String, size: u64, sha1: String },
    /// Try the repository URLs in turn for the Maven path `path`.
    Maven { path: String, urls: Vec<String> },
    /// Nothing to fetch.
    Skip,
}

/// A library with download information is fetched from its artifact (when
/// the artifact has a path); one without is looked up in the Maven
/// repositories by name (when the name has three parts or more).
pub open spec fn library_fetch_matches(lib: Library, f: LibraryFetch) -> bool {
    match lib.downloads {
        Some(d) => match d.artifact {
            Some(a) => match a.path {
                Some(p) => f matches LibraryFetch::Verified { path, url, size, sha1 } && path@ == p@
                    && url@ == a.url@ && size == a.size && sha1@ == a.sha1@,
                None => f is Skip,
            },
            None => f is Skip,
        },
        None => match maven_path_of(lib.name@) {
            Some(p) => f matches LibraryFetch::Maven { path, urls } && path@ == p && urls@.len() == 3
                && forall|i: int| 0 <= i < 3 ==> #[trigger] urls@[i]@ == maven_repositories()[i] + p,
            None => f is Skip,
        },
    }
}

pub fn library_fetch(lib: &Library) -> (r: LibraryFetch)
    ensures
        library_fetch_matches(*lib, r),
{
    match &lib.downloads {
        Some(d) => match &d.artifact {
            Some(a) => match &a.path {
                Some(p) => LibraryFetch::Verified {
                    path: p.clone(),
                    url: a.url.clone(),
                    size: a.size,
                    sha1: a.sha1.clone(),
                },
                None => LibraryFetch::Skip,
            },
            None => LibraryFetch::Skip,
        },
        None => match maven_path(lib.name.as_str()) {
            Some(p) => {
                let urls = maven_download_urls(p.as_str());
                LibraryFetch::Maven { path: p, urls }
            },
            None => LibraryFetch::Skip,
        },
    }
}

/// The file name of an asset index: `<id>.json`.
pub fn asset_index_file_name(id: &str) -> (r: String)
    ensures
        r@ == id@ + ".json"@,
{
    concat2(id, ".json")
}

} // verus!
