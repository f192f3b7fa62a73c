//! Reading one entry of a zip archive held in memory, with the `zip` crate,
//! and taking the index out of a `.mrpack` modpack archive.
use vstd::prelude::*;
use crate::text::{concat2, has_infix};
use crate::launcher::native_entry_skipped;

verus! {

/// What the `zip` crate finds under `name` in the bytes `archive`:
/// `None` where the bytes do not open as a zip archive, `Some(None)` where
/// the archive opens but `by_name` refuses the name (most often: there is no
/// such entry), `Some(Some(None))` where the entry is found but reading its
/// contents fails, and `Some(Some(Some(b)))` where its contents are `b`.
pub uninterp spec fn zip_entry(archive: Seq<u8>, name: Seq<char>) -> Option<Option<Option<Seq<u8>>>>;

/// The outcome of looking up one entry; each error carries the `zip`
/// crate's message.
pub enum ZipLookup {
    NotZip(String),
    Refused(String),
    Unreadable(String),
    Found(Vec<u8>),
}

/// Calls `zip::ZipArchive::new` on the bytes, `by_name` with the name, and
/// reads the entry to its end. Which outcome comes back, and the contents
/// read, are named `zip_entry` of the bytes and the name; the error texts
/// are the crate's own and nothing is stated of them.
#[verifier::external_body]
fn read_zip_entry(archive: &[u8], name: &str) -> (r: ZipLookup)
    ensures
        match zip_entry(archive@, name@) {
            None => r is NotZip,
            Some(None) => r is Refused,
            Some(Some(None)) => r is Unreadable,
            Some(Some(Some(b))) => r matches ZipLookup::Found(v) && v@ == b,
        },
{
    let mut zip = match zip::ZipArchive::new(std::io::Cursor::new(archive)) {
        Ok(z) => z,
        Err(e) => return ZipLookup::NotZip(e.to_string()),
    };
    let mut entry = match zip.by_name(name) {
        Ok(f) => f,
        Err(e) => return ZipLookup::Refused(e.to_string()),
    };
    let mut bytes = Vec::new();
    match std::io::Read::read_to_end(&mut entry, &mut bytes) {
        Ok(_) => ZipLookup::Found(bytes),
        Err(e) => ZipLookup::Unreadable(e.to_string()),
    }
}

/// The entry of a `.mrpack` archive that holds its index.
pub open spec fn index_entry_name() -> Seq<char> {
    "modrinth.index.json"@
}

/// `m` is `prefix` followed by some message.
pub open spec fn has_prefix(m: Seq<char>, prefix: Seq<char>) -> bool {
    exists|rest: Seq<char>| m == prefix + rest
}

/// The index bytes, or the error the installer reports for each way the
/// lookup can fail: `Failed to open zip: `, `Modpack missing index: `, or
/// `Failed to parse index: ` followed by the reader's message.
pub fn modpack_index_from_lookup(lookup: ZipLookup) -> (r: Result<Vec<u8>, String>)
    ensures
        match lookup {
            ZipLookup::NotZip(e) => r matches Err(m) && m@ == "Failed to open zip: "@ + e@,
            ZipLookup::Refused(e) => r matches Err(m) && m@ == "Modpack missing index: "@ + e@,
            ZipLookup::Unreadable(e) => r matches Err(m) && m@ == "Failed to parse index: "@ + e@,
            ZipLookup::Found(b) => r matches Ok(v) && v@ == b@,
        },
{
    match lookup {
        ZipLookup::NotZip(e) => Err(concat2("Failed to open zip: ", e.as_str())),
        ZipLookup::Refused(e) => Err(concat2("Modpack missing index: ", e.as_str())),
        ZipLookup::Unreadable(e) => Err(concat2("Failed to parse index: ", e.as_str())),
        ZipLookup::Found(b) => Ok(b),
    }
}

/// Takes `modrinth.index.json` out of a downloaded `.mrpack` archive: its
/// bytes where the archive holds it, otherwise the installer's error for
/// the way the lookup failed.
pub fn modpack_index_bytes(archive: &[u8]) -> (r: Result<Vec<u8>, String>)
    ensures
        match zip_entry(archive@, index_entry_name()) {
            None => r matches Err(m) && has_prefix(m@, "Failed to open zip: "@),
            Some(None) => r matches Err(m) && has_prefix(m@, "Modpack missing index: "@),
            Some(Some(None)) => r matches Err(m) && has_prefix(m@, "Failed to parse index: "@),
            Some(Some(Some(b))) => r matches Ok(v) && v@ == b,
        },
{
    let lookup = read_zip_entry(archive, "modrinth.index.json");
    let ghost l = lookup;
    let r = modpack_index_from_lookup(lookup);
    proof {
        match l {
            ZipLookup::NotZip(e) => {
                assert(r->Err_0@ == "Failed to open zip: "@ + e@);
            },
            ZipLookup::Refused(e) => {
                assert(r->Err_0@ == "Modpack missing index: "@ + e@);
            },
            ZipLookup::Unreadable(e) => {
                assert(r->Err_0@ == "Failed to parse index: "@ + e@);
            },
            ZipLookup::Found(_) => {},
        }
    }
    r
}

/// How many entries the `zip` crate finds in `archive`; `None` where the
/// bytes do not open as a zip archive.
pub uninterp spec fn zip_entry_count(archive: Seq<u8>) -> Option<nat>;

/// What the `zip` crate reports of entry `index` of `archive`: its name made
/// safe as a relative path (`mangled_name`) and whether it is a directory;
/// `None` where the archive does not open or `by_index` refuses the index.
pub uninterp spec fn zip_entry_info(archive: Seq<u8>, index: nat) -> Option<(Seq<char>, bool)>;

/// The contents of entry `index` of `archive`; `None` where the archive does
/// not open, `by_index` refuses the index or reading the entry fails.
pub uninterp spec fn zip_entry_contents(archive: Seq<u8>, index: nat) -> Option<Seq<u8>>;

/// Calls `zip::ZipArchive::new` on the bytes and `len`; the count is named
/// `zip_entry_count` of the bytes. The error text is the crate's own.
#[verifier::external_body]
fn zip_len(archive: &[u8]) -> (r: Result<usize, String>)
    ensures
        match zip_entry_count(archive@) {
            None => r is Err,
            Some(n) => r matches Ok(k) && k == n,
        },
{
    match zip::ZipArchive::new(std::io::Cursor::new(archive)) {
        Ok(z) => Ok(z.len()),
        Err(e) => Err(e.to_string()),
    }
}

/// Calls `zip::ZipArchive::new`, `by_index`, `mangled_name` and `is_dir`;
/// the result is named `zip_entry_info` of the bytes and the index. The
/// error text is the crate's own.
#[verifier::external_body]
fn zip_info_at(archive: &[u8], index: usize) -> (r: Result<(String, bool), String>)
    ensures
        match zip_entry_info(archive@, index as nat) {
            None => r is Err,
            Some((path, is_dir)) => r matches Ok((p, d)) && p@ == path && d == is_dir,
        },
{
    let mut zip = zip::ZipArchive::new(std::io::Cursor::new(archive)).map_err(|e| e.to_string())?;
    let entry = zip.by_index(index).map_err(|e| e.to_string())?;
    Ok((entry.mangled_name().to_string_lossy().into_owned(), entry.is_dir()))
}

/// Calls `zip::ZipArchive::new`, `by_index` and reads the entry to its end;
/// the bytes are named `zip_entry_contents` of the archive and the index.
/// The error text is the crate's own.
#[verifier::external_body]
fn zip_contents_at(archive: &[u8], index: usize) -> (r: Result<Vec<u8>, String>)
    ensures
        match zip_entry_contents(archive@, index as nat) {
            None => r is Err,
            Some(b) => r matches Ok(v) && v@ == b,
        },
{
    let mut zip = zip::ZipArchive::new(std::io::Cursor::new(archive)).map_err(|e| e.to_string())?;
    let mut entry = zip.by_index(index).map_err(|e| e.to_string())?;
    let mut bytes = Vec::new();
    std::io::Read::read_to_end(&mut entry, &mut bytes).map_err(|e| e.to_string())?;
    Ok(bytes)
}

/// A file to write into the natives directory: its relative path and bytes.
pub struct NativeFile {
    pub path: String,
    pub contents: Vec<u8>,
}

pub open spec fn native_file_views(s: Seq<NativeFile>) -> Seq<(Seq<char>, Seq<u8>)> {
    s.map_values(|f: NativeFile| (f.path@, f.contents@))
}

/// The files extracted from the first `k` entries of a native archive, in
/// order: each entry that is neither a directory nor under `META-INF`, with
/// its contents; `None` where an entry cannot be read (the extraction stops
/// there).
pub open spec fn natives_upto(archive: Seq<u8>, k: nat) -> Option<Seq<(Seq<char>, Seq<u8>)>>
    decreases k,
{
    if k == 0 {
        Some(Seq::empty())
    } else {
        match natives_upto(archive, (k - 1) as nat) {
            None => None,
            Some(done) => match zip_entry_info(archive, (k - 1) as nat) {
                None => None,
                Some((path, is_dir)) => if is_dir || has_infix(path, "META-INF"@) {
                    Some(done)
                } else {
                    match zip_entry_contents(archive, (k - 1) as nat) {
                        None => None,
                        Some(b) => Some(done.push((path, b))),
                    }
                },
            },
        }
    }
}

/// What reading a native archive gives: the files to write, in archive
/// order, and the error that stopped the reading, if any. Extraction goes
/// entry by entry, so the files before a bad entry are still written.
pub struct NativeExtraction {
    pub files: Vec<NativeFile>,
    pub error: Option<String>,
}

/// The files of a native archive (a jar) to extract: every entry that is
/// neither a directory nor under `META-INF`, in archive order, up to the
/// first entry that cannot be read. The error is `Failed to read native
/// jar: ` with the crate's message where the bytes are no zip archive,
/// `Zip error: ` with it where an entry is refused, and the reader's own
/// message where an entry's contents cannot be read.
pub fn native_files(archive: &[u8]) -> (r: NativeExtraction)
    ensures
        zip_entry_count(archive@) is None ==> r.files@.len() == 0,
        zip_entry_count(archive@) is None ==> (r.error matches Some(m)
            && has_prefix(m@, "Failed to read native jar: "@)),
        zip_entry_count(archive@) matches Some(n) ==> ((r.error is None <==> natives_upto(archive@, n) is Some)
            && (r.error is None ==> natives_upto(archive@, n) == Some(native_file_views(r.files@)))),
        zip_entry_count(archive@) matches Some(n) ==> (r.error matches Some(m) ==> exists|j: nat|
            #![trigger natives_upto(archive@, j)]
            j < n && natives_upto(archive@, j) == Some(native_file_views(r.files@))
                && natives_upto(archive@, (j + 1) as nat) is None
                && (zip_entry_info(archive@, j) is None ==> has_prefix(m@, "Zip error: "@))),
{
    let n = match zip_len(archive) {
        Ok(n) => n,
        Err(e) => {
            let m = concat2("Failed to read native jar: ", e.as_str());
            assert(m@ == "Failed to read native jar: "@ + e@);
            return NativeExtraction { files: Vec::new(), error: Some(m) };
        },
    };
    let mut files: Vec<NativeFile> = Vec::new();
    let mut i: usize = 0;
    while i < n
        invariant
            i <= n,
            zip_entry_count(archive@) == Some(n as nat),
            natives_upto(archive@, i as nat) == Some(native_file_views(files@)),
        decreases n - i,
    {
        let (path, is_dir) = match zip_info_at(archive, i) {
            Ok(info) => info,
            Err(e) => {
                let m = concat2("Zip error: ", e.as_str());
                proof {
                    lemma_natives_stop(archive@, i as nat, n as nat);
                    assert(m@ == "Zip error: "@ + e@);
                    assert(natives_upto(archive@, i as nat) == Some(native_file_views(files@)));
                }
                return NativeExtraction { files, error: Some(m) };
            },
        };
        if native_entry_skipped(is_dir, path.as_str()) {
            i = i + 1;
        } else {
            let contents = match zip_contents_at(archive, i) {
                Ok(b) => b,
                Err(e) => {
                    proof {
                        lemma_natives_stop(archive@, i as nat, n as nat);
                        assert(natives_upto(archive@, i as nat) == Some(native_file_views(files@)));
                    }
                    return NativeExtraction { files, error: Some(e) };
                },
            };
            let ghost before = files@;
            let f = NativeFile { path, contents };
            files.push(f);
            assert(native_file_views(files@) =~= native_file_views(before).push((f.path@, f.contents@)));
            i = i + 1;
        }
    }
    NativeExtraction { files, error: None }
}

/// Once the extraction fails at entry `k`, it fails for every longer prefix.
proof fn lemma_natives_stop(archive: Seq<u8>, k: nat, n: nat)
    requires
        k < n,
        natives_upto(archive, (k + 1) as nat) is None,
    ensures
        natives_upto(archive, n) is None,
    decreases n - k,
{
    if k + 1 < n {
        lemma_natives_stop_from(archive, (k + 1) as nat, n);
    }
}

proof fn lemma_natives_stop_from(archive: Seq<u8>, k: nat, n: nat)
    requires
        k <= n,
        natives_upto(archive, k) is None,
    ensures
        natives_upto(archive, n) is None,
    decreases n - k,
{
    if k < n {
        assert(natives_upto(archive, (k + 1) as nat) is None);
        lemma_natives_stop_from(archive, (k + 1) as nat, n);
    }
}

} // verus!
