//! The Fabric loader profile of a game version.
use vstd::prelude::*;
use crate::versions::Library;
use crate::text::concat5;

verus! {

#[derive(Debug, Clone)]
pub struct FabricProfile {
    pub id: String,
    pub inherits_from: String,
    pub main_class: String,
    pub libraries: Vec<Library>,
}

/// Where the Fabric profile for a game and loader version is published.
pub fn fabric_profile_url(game_version: &str, loader_version: &str) -> (r: String)
    ensures
        r@ == "https://meta.fabricmc.net/v2/versions/loader/"@ + game_version@ + "/"@
            + loader_version@ + "/profile/json"@,
{
    concat5(
        "https://meta.fabricmc.net/v2/versions/loader/",
        game_version,
        "/",
        loader_version,
        "/profile/json",
    )
}

} // verus!
