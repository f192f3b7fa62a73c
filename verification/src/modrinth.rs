//! The Modrinth search and project-version API.
use vstd::prelude::*;
use crate::text::{concat3, ends_with_text, has_suffix, text};

verus! {

#[derive(Debug)]
pub struct SearchResponse {
    pub hits: Vec<SearchResult>,
    pub total_hits: u64,
}

#[derive(Debug, Clone)]
pub struct SearchResult {
    pub title: String,
    pub slug: String,
    pub description: String,
    pub author: String,
    pub downloads: u64,
    pub project_type: String,
    pub project_id: String,
}

#[derive(Debug, Clone)]
pub struct ProjectVersion {
    pub id: String,
    pub name: String,
    pub version_number: String,
    pub game_versions: Vec<String>,
    pub loaders: Vec<String>,
    pub files: Vec<VersionFile>,
}

#[derive(Debug, Clone)]
pub struct VersionFile {
    pub url: String,
    pub filename: String,
    pub primary: bool,
}

/// The search request for modpacks matching `query`, at most 20 hits.
pub fn search_url(query: &str) -> (r: String)
    ensures
        r@ == "https://api.modrinth.com/v2/search?query="@ + query@
            + "&facets=[[\"project_type:modpack\"]]&limit=20"@,
{
    concat3(
        "https://api.modrinth.com/v2/search?query=",
        query,
        "&facets=[[\"project_type:modpack\"]]&limit=20",
    )
}

/// The request for the versions of a project.
pub fn project_versions_url(slug_or_id: &str) -> (r: String)
    ensures
        r@ == "https://api.modrinth.com/v2/project/"@ + slug_or_id@ + "/version"@,
{
    concat3("https://api.modrinth.com/v2/project/", slug_or_id, "/version")
}

/// The `User-Agent` that Modrinth asks clients to send.
pub fn user_agent() -> (r: String)
    ensures
        r@ == "mine-tui/0.1.0 (opencode-generated)"@,
{
    text("mine-tui/0.1.0 (opencode-generated)")
}

pub open spec fn is_mrpack(f: VersionFile) -> bool {
    has_suffix(f.filename@, ".mrpack"@)
}

/// The position of the first file whose name ends in `.mrpack`.
pub open spec fn first_mrpack_index(files: Seq<VersionFile>) -> Option<int>
    decreases files.len(),
{
    if files.len() == 0 {
        None
    } else if is_mrpack(files[0]) {
        Some(0)
    } else {
        match first_mrpack_index(files.drop_first()) {
            Some(i) => Some(i + 1),
            None => None,
        }
    }
}

/// The position of the first file of a version whose name ends in `.mrpack`.
pub fn first_mrpack_file(version: &ProjectVersion) -> (r: Option<usize>)
    ensures
        match first_mrpack_index(version.files@) {
            Some(i) => (r matches Some(j) && j as int == i) && 0 <= i < version.files@.len(),
            None => r is None,
        },
{
    let mut i: usize = 0;
    let ghost files = version.files@;
    assert(files.skip(0) =~= files);
    while i < version.files.len()
        invariant
            files == version.files@,
            i <= files.len(),
            match first_mrpack_index(files) {
                Some(p) => match first_mrpack_index(files.skip(i as int)) {
                    Some(q) => p == q + i,
                    None => false,
                },
                None => first_mrpack_index(files.skip(i as int)) is None,
            },
        decreases files.len() - i,
    {
        let ghost rest = files.skip(i as int);
        assert(rest.drop_first() =~= files.skip(i + 1));
        assert(rest[0] == files[i as int]);
        if ends_with_text(version.files[i].filename.as_str(), ".mrpack") {
            proof {
                lemma_first_mrpack_bounds(files);
            }
            return Some(i);
        }
        i = i + 1;
    }
    assert(files.skip(i as int) =~= Seq::<VersionFile>::empty());
    None
}

proof fn lemma_first_mrpack_bounds(files: Seq<VersionFile>)
    ensures
        first_mrpack_index(files) matches Some(i) ==> 0 <= i < files.len() && is_mrpack(files[i]),
    decreases files.len(),
{
    if files.len() > 0 && !is_mrpack(files[0]) {
        lemma_first_mrpack_bounds(files.drop_first());
    }
}

} // verus!
