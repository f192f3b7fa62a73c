//! Modrinth modpack index (`modrinth.index.json`).
use vstd::prelude::*;
use crate::text::{same_text, text};

verus! {

/// The index of a `.mrpack` archive. `dependencies` pairs a component
/// (`minecraft`, `fabric-loader`, ...) with its version; the components are
/// distinct, as the keys of the JSON object they come from.
#[allow(non_snake_case)]
#[derive(Debug, Clone)]
pub struct ModrinthIndex {
    pub formatVersion: u32,
    pub game: String,
    pub versionId: String,
    pub name: String,
    pub summary: Option<String>,
    pub files: Vec<ModpackFile>,
    pub dependencies: Vec<(String, String)>,
}

/// One file of a modpack; `hashes` pairs an algorithm with a digest.
#[allow(non_snake_case)]
#[derive(Debug, Clone)]
pub struct ModpackFile {
    pub path: String,
    pub hashes: Vec<(String, String)>,
    pub env: Option<EnvSupport>,
    pub downloads: Vec<String>,
    pub fileSize: u64,
}

#[derive(Debug, Clone)]
pub struct EnvSupport {
    /// `required`, `optional` or `unsupported`.
    pub client: String,
    pub server: String,
}

/// The value paired with the first occurrence of `key`.
pub open spec fn lookup(pairs: Seq<(String, String)>, key: Seq<char>) -> Option<Seq<char>>
    decreases pairs.len(),
{
    if pairs.len() == 0 {
        None
    } else if pairs[0].0@ == key {
        Some(pairs[0].1@)
    } else {
        lookup(pairs.drop_first(), key)
    }
}

/// `map.get(key).cloned().unwrap_or_default()` over the pairs.
pub fn lookup_or_empty(pairs: &Vec<(String, String)>, key: &str) -> (r: String)
    ensures
        r@ == (match lookup(pairs@, key@) {
            Some(v) => v,
            None => Seq::empty(),
        }),
{
    let mut i: usize = 0;
    assert(pairs@.skip(0) =~= pairs@);
    while i < pairs.len()
        invariant
            i <= pairs@.len(),
            lookup(pairs@, key@) == lookup(pairs@.skip(i as int), key@),
        decreases pairs@.len() - i,
    {
        assert(pairs@.skip(i as int).drop_first() =~= pairs@.skip(i + 1));
        assert(pairs@.skip(i as int)[0] == pairs@[i as int]);
        if same_text(pairs[i].0.as_str(), key) {
            return pairs[i].1.clone();
        }
        i = i + 1;
    }
    assert(pairs@.skip(i as int) =~= Seq::<(String, String)>::empty());
    String::new()
}

/// The game version and the Fabric loader version a modpack asks for; an
/// absent one is the empty string.
pub fn modpack_game_and_loader(index: &ModrinthIndex) -> (r: (String, String))
    ensures
        r.0@ == (match lookup(index.dependencies@, "minecraft"@) {
            Some(v) => v,
            None => Seq::empty(),
        }),
        r.1@ == (match lookup(index.dependencies@, "fabric-loader"@) {
            Some(v) => v,
            None => Seq::empty(),
        }),
{
    (lookup_or_empty(&index.dependencies, "minecraft"), lookup_or_empty(&index.dependencies, "fabric-loader"))
}

/// A file the client does not support is skipped.
pub open spec fn client_unsupported_spec(file: ModpackFile) -> bool {
    file.env matches Some(e) && e.client@ == "unsupported"@
}

pub fn client_unsupported(file: &ModpackFile) -> (r: bool)
    ensures
        r == client_unsupported_spec(*file),
{
    match &file.env {
        Some(e) => same_text(e.client.as_str(), "unsupported"),
        None => false,
    }
}

} // verus!
