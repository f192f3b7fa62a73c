//! The version manifest and the per-version metadata (`client.json`).
use vstd::prelude::*;
use crate::text::{concat3, same_text, text};

verus! {

#[derive(Debug, Clone)]
pub struct VersionManifest {
    pub latest: LatestVersions,
    pub versions: Vec<VersionInfo>,
}

#[derive(Debug, Clone)]
pub struct LatestVersions {
    pub release: String,
    pub snapshot: String,
}

#[derive(Debug, Clone)]
pub struct VersionInfo {
    pub id: String,
    /// `release`, `snapshot`, `old_beta`, ...
    pub version_type: String,
    pub url: String,
    pub time: String,
    pub release_time: String,
}

/// The metadata of one version, as stored in an instance's `client.json`.
#[derive(Debug, Clone)]
pub struct VersionMetadata {
    pub id: String,
    pub libraries: Vec<Library>,
    pub main_class: String,
    pub downloads: VersionDownloads,
    pub asset_index: AssetIndex,
}

#[derive(Debug, Clone)]
pub struct AssetIndex {
    pub id: String,
    pub sha1: String,
    pub size: u64,
    pub total_size: u64,
    pub url: String,
}

/// The content of an asset index file: asset names and their objects.
/// The names are distinct, as the keys of the JSON object they come from.
#[derive(Debug, Clone)]
pub struct AssetsManifest {
    pub objects: Vec<(String, AssetObject)>,
}

#[derive(Debug, Clone)]
pub struct AssetObject {
    pub hash: String,
    pub size: u64,
}

#[derive(Debug, Clone)]
pub struct VersionDownloads {
    pub client: DownloadArtifact,
}

#[derive(Debug, Clone)]
pub struct DownloadArtifact {
    pub sha1: String,
    pub size: u64,
    pub url: String,
    pub path: Option<String>,
}

#[derive(Debug, Clone)]
pub struct Library {
    pub name: String,
    pub downloads: Option<LibraryDownloads>,
}

/// A library's own artifact and its platform-specific classifiers
/// (classifier name and artifact; the names are distinct).
#[derive(Debug, Clone)]
pub struct LibraryDownloads {
    pub artifact: Option<DownloadArtifact>,
    pub classifiers: Option<Vec<(String, DownloadArtifact)>>,
}

/// The ids of the versions of type `release`, in manifest order.
pub open spec fn release_ids(versions: Seq<VersionInfo>) -> Seq<Seq<char>>
    decreases versions.len(),
{
    if versions.len() == 0 {
        Seq::empty()
    } else {
        let rest = release_ids(versions.drop_last());
        let v = versions.last();
        if v.version_type@ == "release"@ {
            rest.push(v.id@)
        } else {
            rest
        }
    }
}

/// The ids of the release versions of the manifest, in order.
pub fn release_version_ids(manifest: &VersionManifest) -> (r: Vec<String>)
    ensures
        crate::text::views(r@) == release_ids(manifest.versions@),
{
    let mut r: Vec<String> = Vec::new();
    let mut i: usize = 0;
    let n = manifest.versions.len();
    while i < n
        invariant
            n == manifest.versions@.len(),
            i <= n,
            crate::text::views(r@) == release_ids(manifest.versions@.take(i as int)),
        decreases n - i,
    {
        let v = &manifest.versions[i];
        assert(manifest.versions@.take(i + 1).drop_last() =~= manifest.versions@.take(i as int));
        let ghost before = r@;
        if same_text(v.version_type.as_str(), "release") {
            r.push(v.id.clone());
            assert(crate::text::views(r@) =~= crate::text::views(before).push(v.id@));
        }
        i = i + 1;
    }
    assert(manifest.versions@.take(n as int) =~= manifest.versions@);
    r
}

pub open spec fn version_not_found_message(id: Seq<char>) -> Seq<char> {
    "Version "@ + id + " not found in manifest"@
}

/// The URL of the metadata of the first version with the given id, or the
/// message `Version <id> not found in manifest`.
pub fn find_version_url(manifest: &VersionManifest, version_id: &str) -> (r: Result<String, String>)
    ensures
        match r {
            Ok(url) => exists|i: int|
                0 <= i < manifest.versions@.len() && manifest.versions@[i].id@ == version_id@
                    && url@ == manifest.versions@[i].url@ && forall|j: int|
                    0 <= j < i ==> manifest.versions@[j].id@ != version_id@,
            Err(e) => e@ == version_not_found_message(version_id@) && forall|j: int|
                0 <= j < manifest.versions@.len() ==> manifest.versions@[j].id@ != version_id@,
        },
{
    let n = manifest.versions.len();
    let mut i: usize = 0;
    while i < n
        invariant
            n == manifest.versions@.len(),
            i <= n,
            forall|j: int| 0 <= j < i ==> manifest.versions@[j].id@ != version_id@,
        decreases n - i,
    {
        if same_text(manifest.versions[i].id.as_str(), version_id) {
            return Ok(manifest.versions[i].url.clone());
        }
        i = i + 1;
    }
    Err(concat3("Version ", version_id, " not found in manifest"))
}

/// Where the version manifest is published.
pub fn version_manifest_url() -> (r: String)
    ensures
        r@ == "https://piston-meta.mojang.com/mc/game/version_manifest_v2.json"@,
{
    text("https://piston-meta.mojang.com/mc/game/version_manifest_v2.json")
}

} // verus!
