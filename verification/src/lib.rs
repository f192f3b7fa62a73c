use vstd::prelude::*;

pub mod text;
pub mod paths;
pub mod config;
pub mod instance;
pub mod versions;
pub mod digest;
pub mod fabric;
pub mod installer;
pub mod modpack;
pub mod archive;
pub mod modrinth;
pub mod auth;
pub mod launcher;
pub mod app;
pub mod control;
pub mod laws;
pub mod screen_text;

verus! {

} // verus!
