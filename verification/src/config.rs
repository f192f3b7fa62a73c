//! The launcher's settings: the account it plays with, the Java binary and
//! the default memory limit.
use vstd::prelude::*;
use crate::text::text;

verus! {

#[derive(Debug, Clone, Copy, PartialEq, Eq, Structural)]
pub enum AuthType {
    Offline,
    Microsoft,
    ElyBy,
}

/// The account the game is started with.
#[derive(Debug, Clone)]
pub struct AuthData {
    pub auth_type: AuthType,
    pub username: String,
    pub uuid: String,
    pub access_token: String,
    pub refresh_token: Option<String>,
}

#[derive(Debug, Clone)]
pub struct Config {
    pub auth: AuthData,
    pub java_path: String,
    pub max_memory: u32,
}

#[verifier::ext_equal]
pub struct AuthDataView {
    pub auth_type: AuthType,
    pub username: Seq<char>,
    pub uuid: Seq<char>,
    pub access_token: Seq<char>,
    pub refresh_token: Option<Seq<char>>,
}

#[verifier::ext_equal]
pub struct ConfigView {
    pub auth: AuthDataView,
    pub java_path: Seq<char>,
    pub max_memory: u32,
}

impl View for AuthData {
    type V = AuthDataView;

    open spec fn view(&self) -> AuthDataView {
        AuthDataView {
            auth_type: self.auth_type,
            username: self.username@,
            uuid: self.uuid@,
            access_token: self.access_token@,
            refresh_token: opt_view(self.refresh_token),
        }
    }
}

impl View for Config {
    type V = ConfigView;

    open spec fn view(&self) -> ConfigView {
        ConfigView { auth: self.auth@, java_path: self.java_path@, max_memory: self.max_memory }
    }
}

pub open spec fn opt_view(o: Option<String>) -> Option<Seq<char>> {
    match o {
        Some(s) => Some(s@),
        None => None,
    }
}

pub fn copy_opt_string(o: &Option<String>) -> (r: Option<String>)
    ensures
        r == *o,
{
    match o {
        Some(s) => Some(s.clone()),
        None => None,
    }
}

impl AuthData {
    /// The offline account `Steve` with the nil UUID and the token `0`.
    pub open spec fn is_default(self) -> bool {
        &&& self.auth_type == AuthType::Offline
        &&& self.username@ == "Steve"@
        &&& self.uuid@ == "00000000-0000-0000-0000-000000000000"@
        &&& self.access_token@ == "0"@
        &&& self.refresh_token is None
    }

    pub fn duplicate(&self) -> (r: Self)
        ensures
            r == *self,
    {
        AuthData {
            auth_type: self.auth_type,
            username: self.username.clone(),
            uuid: self.uuid.clone(),
            access_token: self.access_token.clone(),
            refresh_token: copy_opt_string(&self.refresh_token),
        }
    }
}

impl Default for AuthData {
    fn default() -> (r: Self)
        ensures
            r.is_default(),
    {
        AuthData {
            auth_type: AuthType::Offline,
            username: text("Steve"),
            uuid: text("00000000-0000-0000-0000-000000000000"),
            access_token: text("0"),
            refresh_token: None,
        }
    }
}

impl Config {
    /// The default account, `java` from the search path and 4096 MB.
    pub open spec fn is_default(self) -> bool {
        &&& self.auth.is_default()
        &&& self.java_path@ == "java"@
        &&& self.max_memory == 4096
    }
}

impl Default for Config {
    fn default() -> (r: Self)
        ensures
            r.is_default(),
    {
        Config { auth: AuthData::default(), java_path: text("java"), max_memory: 4096 }
    }
}

/// The configuration read from disk when it could be read and parsed,
/// the default configuration otherwise.
pub fn config_or_default(loaded: Option<Config>) -> (r: Config)
    ensures
        loaded is Some ==> r == loaded->0,
        loaded is None ==> r.is_default(),
{
    match loaded {
        Some(c) => c,
        None => Config::default(),
    }
}

} // verus!
