//! Accounts: offline UUIDs, the Microsoft device-code flow and Ely.by.
use vstd::prelude::*;
use vstd::utf8::encode_utf8;
use vstd::string::StringSliceAdditionalSpecFns;
use crate::text::{concat2, concat4, same_text, text};
use crate::digest::{
    hex_digit, hex_lower, lemma_hex_lower_first, lemma_hex_lower_len, md5_compute, md5_digest,
    uuid_string, uuid_text,
};

verus! {

#[derive(Debug)]
pub struct DeviceCodeResponse {
    pub device_code: String,
    pub user_code: String,
    pub verification_uri: String,
    pub expires_in: u64,
    pub interval: u64,
}

#[derive(Debug)]
pub struct TokenResponse {
    pub access_token: String,
    pub refresh_token: Option<String>,
    pub error: Option<String>,
}

#[derive(Debug)]
pub struct MinecraftLoginResponse {
    pub access_token: String,
    pub username: Option<String>,
}

#[derive(Debug)]
pub struct MinecraftProfile {
    pub id: String,
    pub name: String,
}

/// The login request sent to Ely.by (Yggdrasil protocol).
#[derive(Debug)]
pub struct YggdrasilAuthRequest {
    pub agent: Agent,
    pub username: String,
    pub password: String,
    pub client_token: String,
    pub request_user: bool,
}

#[derive(Debug)]
pub struct Agent {
    pub name: String,
    pub version: u32,
}

// ---------------------------------------------------------------------------
// Offline accounts
// ---------------------------------------------------------------------------

/// The bytes hashed for an offline account: `OfflinePlayer:<name>` in UTF-8.
pub open spec fn offline_name_bytes(username: Seq<char>) -> Seq<u8> {
    encode_utf8("OfflinePlayer:"@ + username)
}

/// Marks 16 bytes as a version-3 (name-based, MD5) UUID of the IETF variant.
pub open spec fn mark_version_3(b: Seq<u8>) -> Seq<u8> {
    b.update(6, (b[6] & 0x0f) | 0x30).update(8, (b[8] & 0x3f) | 0x80)
}

/// The UUID of an offline account, as the game itself derives it.
pub open spec fn offline_uuid(username: Seq<char>) -> Seq<char> {
    uuid_text(mark_version_3(md5_digest(offline_name_bytes(username))))
}

/// The UUID of an offline player: the MD5 of `OfflinePlayer:<name>`, marked
/// as version 3, in hyphenated lower-case hex. Its version digit is `3` and
/// its variant digit is one of `8`, `9`, `a`, `b`.
pub fn generate_offline_uuid(username: &str) -> (r: String)
    ensures
        r@ == offline_uuid(username@),
        r@.len() == 36,
        r@[14] == '3',
        r@[19] == '8' || r@[19] == '9' || r@[19] == 'a' || r@[19] == 'b',
{
    let name = concat2("OfflinePlayer:", username);
    let bytes = name.as_str().as_bytes();
    let mut d = md5_compute(bytes);
    let ghost raw = d@;
    let b6 = (d[6] & 0x0f) | 0x30;
    let b8 = (d[8] & 0x3f) | 0x80;
    d[6] = b6;
    d[8] = b8;
    assert(d@ =~= mark_version_3(raw));
    let r = uuid_string(d);
    proof {
        lemma_marked_bits(raw[6], raw[8]);
        assert(d@[6] == b6 && d@[8] == b8);
        lemma_uuid_digits(d@);
    }
    r
}

/// The version and variant digits of a marked UUID.
pub proof fn lemma_uuid_digits(b: Seq<u8>)
    requires
        b.len() == 16,
        b[6] >> 4 == 3,
        8 <= b[8] >> 4 <= 11,
    ensures
        uuid_text(b).len() == 36,
        uuid_text(b)[14] == '3',
        uuid_text(b)[19] == '8' || uuid_text(b)[19] == '9' || uuid_text(b)[19] == 'a'
            || uuid_text(b)[19] == 'b',
{
    let g0 = hex_lower(b.subrange(0, 4));
    let g1 = hex_lower(b.subrange(4, 6));
    let g2 = hex_lower(b.subrange(6, 8));
    let g3 = hex_lower(b.subrange(8, 10));
    let g4 = hex_lower(b.subrange(10, 16));
    lemma_hex_lower_len(b.subrange(0, 4));
    lemma_hex_lower_len(b.subrange(4, 6));
    lemma_hex_lower_len(b.subrange(6, 8));
    lemma_hex_lower_len(b.subrange(8, 10));
    lemma_hex_lower_len(b.subrange(10, 16));
    lemma_hex_lower_first(b.subrange(6, 8));
    lemma_hex_lower_first(b.subrange(8, 10));
    let u = uuid_text(b);
    assert(u == g0 + seq!['-'] + g1 + seq!['-'] + g2 + seq!['-'] + g3 + seq!['-'] + g4);
    assert(u[14] == g2[0]);
    assert(u[19] == g3[0]);
}

proof fn lemma_marked_bits(x: u8, y: u8)
    ensures
        ((x & 0x0f) | 0x30) >> 4 == 3,
        8 <= ((y & 0x3f) | 0x80) >> 4 <= 11,
{
    assert(((x & 0x0f) | 0x30) >> 4 == 3) by (bit_vector);
    assert(8 <= ((y & 0x3f) | 0x80) >> 4 <= 11) by (bit_vector);
}


// ---------------------------------------------------------------------------
// Microsoft device-code flow
// ---------------------------------------------------------------------------

/// The client id of the official launcher, used for the device-code flow.
pub open spec fn launcher_client_id() -> Seq<char> {
    "00000000-402b-9631-3959-f52ef9304b6d"@
}

pub open spec fn pair_views(v: Seq<(String, String)>) -> Seq<(Seq<char>, Seq<char>)> {
    v.map_values(|p: (String, String)| (p.0@, p.1@))
}

/// The form that asks for a device code.
pub fn device_code_form() -> (r: Vec<(String, String)>)
    ensures
        pair_views(r@) == seq![
            ("client_id"@, launcher_client_id()),
            ("scope"@, "XboxLive.Signin offline_access"@),
        ],
{
    let mut r: Vec<(String, String)> = Vec::new();
    r.push((text("client_id"), text("00000000-402b-9631-3959-f52ef9304b6d")));
    r.push((text("scope"), text("XboxLive.Signin offline_access")));
    assert(pair_views(r@) =~= seq![
        ("client_id"@, launcher_client_id()),
        ("scope"@, "XboxLive.Signin offline_access"@),
    ]);
    r
}

/// The form that polls for the token of a device code.
pub fn token_poll_form(device_code: &str) -> (r: Vec<(String, String)>)
    ensures
        pair_views(r@) == seq![
            ("grant_type"@, "urn:ietf:params:oauth:grant-type:device_code"@),
            ("client_id"@, launcher_client_id()),
            ("device_code"@, device_code@),
        ],
{
    let mut r: Vec<(String, String)> = Vec::new();
    r.push((text("grant_type"), text("urn:ietf:params:oauth:grant-type:device_code")));
    r.push((text("client_id"), text("00000000-402b-9631-3959-f52ef9304b6d")));
    r.push((text("device_code"), text(device_code)));
    assert(pair_views(r@) =~= seq![
        ("grant_type"@, "urn:ietf:params:oauth:grant-type:device_code"@),
        ("client_id"@, launcher_client_id()),
        ("device_code"@, device_code@),
    ]);
    r
}

/// A field of a JSON reply: `None` when absent, `Some(None)` when present but
/// not a string, `Some(Some(s))` for the string `s`.
pub open spec fn field_readable(f: Option<Option<String>>) -> bool {
    f != Some(None::<String>)
}

/// The reply to a token poll, from the `error`, `access_token` and
/// `refresh_token` fields of its JSON body. An `error` field wins and is
/// reported (as `unknown_error` when it is not a string); otherwise a
/// missing access token is an error. Where the reply carries a token field
/// that is not a string, no result is defined, so such replies are excluded.
pub fn token_response_from_body(
    error: Option<Option<String>>,
    access_token: Option<Option<String>>,
    refresh_token: Option<Option<String>>,
) -> (r: Result<TokenResponse, String>)
    requires
        error is None ==> field_readable(access_token),
        error is None && access_token is Some ==> field_readable(refresh_token),
    ensures
        match error {
            Some(e) => r matches Ok(t) && {
                &&& t.access_token@.len() == 0
                &&& t.refresh_token is None
                &&& t.error is Some
                &&& t.error->0@ == (match e {
                    Some(s) => s@,
                    None => "unknown_error"@,
                })
            },
            None => match access_token {
                None => r matches Err(m) && m@ == "No access token in response"@,
                Some(a) => r matches Ok(t) && {
                    &&& t.error is None
                    &&& t.access_token == a->0
                    &&& t.refresh_token == (match refresh_token {
                        Some(x) => x,
                        None => None,
                    })
                },
            },
        },
{
    match error {
        Some(e) => {
            let msg = match e {
                Some(s) => s,
                None => text("unknown_error"),
            };
            Ok(TokenResponse { access_token: String::new(), refresh_token: None, error: Some(msg) })
        },
        None => match access_token {
            None => Err(text("No access token in response")),
            Some(a) => {
                let token = match a {
                    Some(t) => t,
                    None => String::new(),
                };
                let refresh = match refresh_token {
                    Some(x) => x,
                    None => None,
                };
                Ok(TokenResponse { access_token: token, refresh_token: refresh, error: None })
            },
        },
    }
}

/// After a poll: the Microsoft access token to continue with, or the error
/// to report.
pub fn token_outcome(token: TokenResponse) -> (r: Result<String, String>)
    ensures
        token.error is None ==> r == Ok::<String, String>(token.access_token),
        token.error matches Some(e) ==> r == Err::<String, String>(e),
{
    match token.error {
        None => Ok(token.access_token),
        Some(e) => Err(e),
    }
}

/// What to do after polling for the Microsoft token.
pub enum PollStep {
    /// The code has not been entered yet: poll again after this many
    /// seconds, which is also the interval to keep from then on.
    PollAgain { after_secs: u64 },
    /// The user signed in: go on with this Microsoft access token.
    SignedIn(String),
    /// The login failed, or the code expired: report this error.
    Failed(String),
}

/// The wait before the next poll: the interval, five seconds longer when
/// the server asks to slow down (RFC 8628).
pub open spec fn next_interval(error: Seq<char>, interval: u64) -> int {
    if error == "slow_down"@ {
        interval + 5
    } else {
        interval as int
    }
}

/// Whether the server says the code is still waiting to be entered.
pub open spec fn still_pending(error: Seq<char>) -> bool {
    error == "authorization_pending"@ || error == "slow_down"@
}

/// After a poll, `elapsed` seconds into a code that lives `expires_in`
/// seconds: go on with the token; poll again while the code is pending and
/// the next poll falls before it expires; otherwise report the error.
pub fn poll_step(token: TokenResponse, interval: u64, elapsed: u64, expires_in: u64) -> (s: PollStep)
    ensures
        token.error is None ==> (s matches PollStep::SignedIn(t) && t@ == token.access_token@),
        token.error matches Some(e) ==> (if still_pending(e@) && elapsed + next_interval(e@, interval)
            < expires_in {
            s matches PollStep::PollAgain { after_secs } && after_secs == next_interval(e@, interval)
        } else {
            s matches PollStep::Failed(m) && m@ == e@
        }),
{
    match token.error {
        None => PollStep::SignedIn(token.access_token),
        Some(e) => {
            proof {
                reveal_strlit("slow_down");
                reveal_strlit("authorization_pending");
            }
            let slow = same_text(e.as_str(), "slow_down");
            let pending = slow || same_text(e.as_str(), "authorization_pending");
            if pending && elapsed < expires_in {
                let room = expires_in - elapsed;
                if slow {
                    if interval < room && room - interval > 5 {
                        return PollStep::PollAgain { after_secs: interval + 5 };
                    }
                } else if interval < room {
                    return PollStep::PollAgain { after_secs: interval };
                }
            }
            PollStep::Failed(e)
        },
    }
}

/// The Xbox Live reply: its token and user hash, each required in turn.
pub fn xbl_reply(token: Option<String>, uhs: Option<String>) -> (r: Result<(String, String), String>)
    ensures
        token is None ==> (r matches Err(e) && e@ == "Failed to get XBL token"@),
        token is Some && uhs is None ==> (r matches Err(e) && e@ == "Failed to get UHS"@),
        token is Some && uhs is Some ==> (r matches Ok((a, b)) && a@ == token->0@ && b@ == uhs->0@),
{
    match (token, uhs) {
        (None, _) => Err(text("Failed to get XBL token")),
        (Some(_), None) => Err(text("Failed to get UHS")),
        (Some(t), Some(u)) => Ok((t, u)),
    }
}

/// The XSTS service answers 401 for an account without Xbox profile; the
/// reply is not read then.
pub fn xsts_status_error(status: u16) -> (r: Option<String>)
    ensures
        status == 401 ==> (r matches Some(e) && e@ == "Xbox account does not exist or is not verified."@),
        status != 401 ==> r is None,
{
    if status == 401 {
        Some(text("Xbox account does not exist or is not verified."))
    } else {
        None
    }
}

/// The XSTS reply: its token is required.
pub fn xsts_reply(token: Option<String>) -> (r: Result<String, String>)
    ensures
        token is None ==> (r matches Err(e) && e@ == "Failed to get XSTS token"@),
        token matches Some(t) ==> (r matches Ok(a) && a@ == t@),
{
    match token {
        None => Err(text("Failed to get XSTS token")),
        Some(t) => Ok(t),
    }
}

/// The Minecraft login reply: its access token is required.
pub fn minecraft_login_reply(token: Option<String>) -> (r: Result<String, String>)
    ensures
        token is None ==> (r matches Err(e) && e@ == "Failed to get MC token"@),
        token matches Some(t) ==> (r matches Ok(a) && a@ == t@),
{
    match token {
        None => Err(text("Failed to get MC token")),
        Some(t) => Ok(t),
    }
}

/// The RPS ticket sent to Xbox Live: `d=<token>`.
pub fn xbox_rps_ticket(ms_access_token: &str) -> (r: String)
    ensures
        r@ == "d="@ + ms_access_token@,
{
    concat2("d=", ms_access_token)
}

/// The identity token sent to Minecraft: `XBL3.0 x=<uhs>;<xsts token>`.
pub fn xbox_identity_token(uhs: &str, xsts_token: &str) -> (r: String)
    ensures
        r@ == "XBL3.0 x="@ + uhs@ + ";"@ + xsts_token@,
{
    concat4("XBL3.0 x=", uhs, ";", xsts_token)
}

/// The `Authorization` header for Minecraft services: `Bearer <token>`.
pub fn bearer_header(token: &str) -> (r: String)
    ensures
        r@ == "Bearer "@ + token@,
{
    concat2("Bearer ", token)
}

// ---------------------------------------------------------------------------
// Ely.by
// ---------------------------------------------------------------------------

/// The Ely.by login request: agent `Minecraft` version 1, client token
/// `minetui-client`, and the profile asked for.
pub fn ely_by_auth_request(username: &str, password: &str) -> (r: YggdrasilAuthRequest)
    ensures
        r.agent.name@ == "Minecraft"@,
        r.agent.version == 1,
        r.username@ == username@,
        r.password@ == password@,
        r.client_token@ == "minetui-client"@,
        r.request_user,
{
    YggdrasilAuthRequest {
        agent: Agent { name: text("Minecraft"), version: 1 },
        username: text(username),
        password: text(password),
        client_token: text("minetui-client"),
        request_user: true,
    }
}

} // verus!
