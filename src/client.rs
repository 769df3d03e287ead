//! Data exchanged with the client's local API, and the logic that turns
//! what the API and the process table report into those values.
use vstd::prelude::*;
use vstd::string::*;
use base64::Engine;
use crate::text::{contains_text, has_infix, has_prefix, strip_prefix_text};

verus! {

/// Port and token of the running client's local API.
#[derive(Clone, Debug)]
pub struct LcuAuthInfo {
    pub port: String,
    pub token: String,
    pub is_connected: bool,
}

/// What the session reports of the signed-in player.
#[derive(Clone, Debug)]
pub struct SummonerInfo {
    pub display_name: String,
    pub summoner_level: u32,
    pub profile_icon_id: u32,
    pub xp_since_last_level: u32,
    pub xp_until_next_level: u32,
}

/// The raw fields of a current-summoner response, each absent when the
/// response does not hold it with the expected type.
pub struct SummonerFields {
    pub game_name: Option<String>,
    pub tag_line: Option<String>,
    pub display_name: Option<String>,
    pub summoner_level: Option<u64>,
    pub profile_icon_id: Option<u64>,
    pub xp_since_last_level: Option<u64>,
    pub xp_until_next_level: Option<u64>,
}

/// The phase part of a gameflow session response.
pub struct GameflowSession {
    pub phase: String,
}

/// Whether the process runs with the privileges needed to inspect the
/// client's process, and a message saying so.
pub struct AdminStatus {
    pub is_admin: bool,
    pub message: String,
}

/// One entry of the process table: its name and its command-line arguments.
pub struct ProcessEntry {
    pub name: String,
    pub args: Vec<String>,
}

/// The ways in which a request to the client's API can fail.
#[derive(Clone, Copy, Debug, PartialEq, Eq, Structural)]
pub enum LcuError {
    DiscoveryFailure,
    AuthInvalid,
    TransportError,
    ProtocolError(u16),
    DecodeError,
}

/// The API endpoints that the engine uses.
#[derive(Clone, Copy, Debug, PartialEq, Eq, Structural)]
pub enum Endpoint {
    CurrentSummoner,
    GameflowSession,
    ReadyCheckAccept,
}

impl LcuAuthInfo {
    /// A copy equal to `self`.
    pub fn duplicate(&self) -> (r: LcuAuthInfo)
        ensures
            r == *self,
    {
        LcuAuthInfo { port: self.port.clone(), token: self.token.clone(), is_connected: self.is_connected }
    }
}

impl SummonerInfo {
    /// A copy equal to `self`.
    pub fn duplicate(&self) -> (r: SummonerInfo)
        ensures
            r == *self,
    {
        SummonerInfo {
            display_name: self.display_name.clone(),
            summoner_level: self.summoner_level,
            profile_icon_id: self.profile_icon_id,
            xp_since_last_level: self.xp_since_last_level,
            xp_until_next_level: self.xp_until_next_level,
        }
    }
}

pub open spec fn app_port_flag() -> Seq<char> {
    "--app-port="@
}

pub open spec fn auth_token_flag() -> Seq<char> {
    "--remoting-auth-token="@
}

pub open spec fn client_process_marker() -> Seq<char> {
    "LeagueClientUx"@
}

/// The value of the last argument that starts with `flag`, with the flag
/// removed; empty when no argument starts with it.
pub open spec fn flag_value(args: Seq<String>, flag: Seq<char>) -> Seq<char>
    decreases args.len(),
{
    if args.len() == 0 {
        Seq::empty()
    } else if has_prefix(args.last()@, flag) {
        args.last()@.subrange(flag.len() as int, args.last()@.len() as int)
    } else {
        flag_value(args.drop_last(), flag)
    }
}

/// What the arguments of a client process yield: credentials when both the
/// port and the token are present and non-empty.
pub open spec fn credentials_spec(args: Seq<String>) -> Option<(Seq<char>, Seq<char>)> {
    let port = flag_value(args, app_port_flag());
    let token = flag_value(args, auth_token_flag());
    if port.len() > 0 && token.len() > 0 {
        Some((port, token))
    } else {
        None
    }
}

pub open spec fn auth_matches(r: Option<LcuAuthInfo>, s: Option<(Seq<char>, Seq<char>)>) -> bool {
    match s {
        Some((port, token)) => r is Some && r->0.port@ == port && r->0.token@ == token
            && r->0.is_connected,
        None => r is None,
    }
}

/// The credentials found in one process entry: it must be the client's
/// process, and its arguments must give both values.
pub open spec fn process_credentials(p: ProcessEntry) -> Option<(Seq<char>, Seq<char>)> {
    if has_infix(p.name@, client_process_marker()) {
        credentials_spec(p.args@)
    } else {
        None
    }
}

/// The first entry of the table that yields credentials.
pub open spec fn table_credentials(ps: Seq<ProcessEntry>) -> Option<(Seq<char>, Seq<char>)>
    decreases ps.len(),
{
    if ps.len() == 0 {
        None
    } else if process_credentials(ps[0]) is Some {
        process_credentials(ps[0])
    } else {
        table_credentials(ps.drop_first())
    }
}

proof fn lemma_flag_value_step(args: Seq<String>, i: int, flag: Seq<char>)
    requires
        0 <= i < args.len(),
    ensures
        flag_value(args.subrange(0, i + 1), flag) == if has_prefix(args[i]@, flag) {
            args[i]@.subrange(flag.len() as int, args[i]@.len() as int)
        } else {
            flag_value(args.subrange(0, i), flag)
        },
{
    assert(args.subrange(0, i + 1).drop_last() =~= args.subrange(0, i));
    assert(args.subrange(0, i + 1).last() == args[i]);
}

/// Reads the port and token from the command-line arguments of the client.
pub fn credentials_from_args(args: &Vec<String>) -> (r: Option<LcuAuthInfo>)
    ensures
        auth_matches(r, credentials_spec(args@)),
{
    let mut port = String::new();
    let mut token = String::new();
    let mut i: usize = 0;
    while i < args.len()
        invariant
            i <= args@.len(),
            port@ == flag_value(args@.subrange(0, i as int), app_port_flag()),
            token@ == flag_value(args@.subrange(0, i as int), auth_token_flag()),
        decreases args@.len() - i,
    {
        let arg = args[i].as_str();
        proof {
            lemma_flag_value_step(args@, i as int, app_port_flag());
            lemma_flag_value_step(args@, i as int, auth_token_flag());
        }
        match strip_prefix_text(arg, "--app-port=") {
            Some(v) => {
                port = v;
            },
            None => {},
        }
        match strip_prefix_text(arg, "--remoting-auth-token=") {
            Some(v) => {
                token = v;
            },
            None => {},
        }
        i = i + 1;
    }
    assert(args@.subrange(0, args@.len() as int) =~= args@);
    if port.unicode_len() > 0 && token.unicode_len() > 0 {
        Some(LcuAuthInfo { port, token, is_connected: true })
    } else {
        None
    }
}

/// Credentials from one process entry, when it is the client's process.
pub fn credentials_from_process(p: &ProcessEntry) -> (r: Option<LcuAuthInfo>)
    ensures
        auth_matches(r, process_credentials(*p)),
{
    if contains_text(p.name.as_str(), "LeagueClientUx") {
        credentials_from_args(&p.args)
    } else {
        None
    }
}

/// Credentials from the first entry of the process table that yields them.
pub fn find_credentials(table: &Vec<ProcessEntry>) -> (r: Option<LcuAuthInfo>)
    ensures
        auth_matches(r, table_credentials(table@)),
{
    let mut i: usize = 0;
    assert(table@.subrange(0, table@.len() as int) =~= table@);
    while i < table.len()
        invariant
            i <= table@.len(),
            table_credentials(table@) == table_credentials(table@.subrange(i as int, table@.len() as int)),
        decreases table@.len() - i,
    {
        let found = credentials_from_process(&table[i]);
        let ghost rest = table@.subrange(i as int, table@.len() as int);
        assert(rest[0] == table@[i as int]);
        assert(rest.drop_first() =~= table@.subrange(i + 1, table@.len() as int));
        if found.is_some() {
            return found;
        }
        i = i + 1;
    }
    assert(table@.subrange(i as int, table@.len() as int).len() == 0);
    None
}

/// Largest text, in characters, that is handed to the base64 encoder.
pub const MAX_ENCODED_CHARS: usize = 0x0fff_0000;

/// Name of the standard, padded base64 encoding of a text's UTF-8 bytes.
pub uninterp spec fn base64_standard(s: Seq<char>) -> Seq<char>;

/// Relies on `base64::engine::general_purpose::STANDARD.encode`: the padded
/// standard encoding of the UTF-8 bytes of `s`, which depends on `s` alone.
/// It panics only when the encoded length overflows `usize`.
#[verifier::external_body]
fn encode_base64(s: &str) -> (r: String)
    requires
        s@.len() <= MAX_ENCODED_CHARS,
    ensures
        r@ == base64_standard(s@),
        s@.len() == 0 ==> r@.len() == 0,
{
    base64::engine::general_purpose::STANDARD.encode(s)
}

pub open spec fn basic_credentials(token: Seq<char>) -> Seq<char> {
    "riot:"@ + token
}

/// The value of a basic `Authorization` header for already encoded
/// credentials.
pub fn basic_auth_value(encoded: &str) -> (r: String)
    ensures
        r@ == "Basic "@ + encoded@,
{
    let mut r = String::from_str("Basic ");
    r.append(encoded);
    r
}

/// The `Authorization` header that the client's API expects for `token`.
pub fn auth_header(token: &str) -> (r: String)
    requires
        token@.len() + 5 <= MAX_ENCODED_CHARS,
    ensures
        r@ == "Basic "@ + base64_standard(basic_credentials(token@)),
{
    let mut creds = String::from_str("riot:");
    creds.append(token);
    proof {
        reveal_strlit("riot:");
    }
    let encoded = encode_base64(creds.as_str());
    basic_auth_value(encoded.as_str())
}

pub open spec fn endpoint_path(e: Endpoint) -> Seq<char> {
    match e {
        Endpoint::CurrentSummoner => "/lol-summoner/v1/current-summoner"@,
        Endpoint::GameflowSession => "/lol-gameflow/v1/session"@,
        Endpoint::ReadyCheckAccept => "/lol-matchmaking/v1/ready-check/accept"@,
    }
}

/// The URL of an endpoint of the API listening on `port` of the local host.
pub fn endpoint_url(port: &str, e: Endpoint) -> (r: String)
    ensures
        r@ == "https://127.0.0.1:"@ + port@ + endpoint_path(e),
{
    let path: &str = match e {
        Endpoint::CurrentSummoner => "/lol-summoner/v1/current-summoner",
        Endpoint::GameflowSession => "/lol-gameflow/v1/session",
        Endpoint::ReadyCheckAccept => "/lol-matchmaking/v1/ready-check/accept",
    };
    let mut r = String::from_str("https://127.0.0.1:");
    r.append(port);
    r.append(path);
    r
}

/// Maps an HTTP status code to success (2xx) or a protocol error.
pub fn check_status(code: u16) -> (r: Result<(), LcuError>)
    ensures
        r is Ok <==> 200 <= code < 300,
        r is Err ==> r == Err::<(), LcuError>(LcuError::ProtocolError(code)),
{
    if 200 <= code && code < 300 {
        Ok(())
    } else {
        Err(LcuError::ProtocolError(code))
    }
}

pub open spec fn is_filled(o: Option<String>) -> bool {
    o is Some && o->0@.len() > 0
}

pub open spec fn unknown_name() -> Seq<char> {
    "未知"@
}

/// The name shown for the player: the game name, tagged with the tag line
/// when there is one; else the display name; else a placeholder.
pub open spec fn display_name_spec(f: SummonerFields) -> Seq<char> {
    if is_filled(f.game_name) {
        if is_filled(f.tag_line) {
            f.game_name->0@ + "#"@ + f.tag_line->0@
        } else {
            f.game_name->0@
        }
    } else {
        match f.display_name {
            Some(d) => d@,
            None => unknown_name(),
        }
    }
}

/// A numeric field as `u32`: absent is zero, larger values are truncated.
pub open spec fn field_u32_spec(v: Option<u64>) -> u32 {
    match v {
        Some(x) => x as u32,
        None => 0,
    }
}

fn field_u32(v: Option<u64>) -> (r: u32)
    ensures
        r == field_u32_spec(v),
{
    match v {
        Some(x) => x as u32,
        None => 0,
    }
}

fn display_name_of(f: &SummonerFields) -> (r: String)
    ensures
        r@ == display_name_spec(*f),
{
    if let Some(g) = &f.game_name {
        if g.unicode_len() > 0 {
            if let Some(t) = &f.tag_line {
                if t.unicode_len() > 0 {
                    let mut r = g.clone();
                    r.append("#");
                    r.append(t.as_str());
                    return r;
                }
            }
            return g.clone();
        }
    }
    match &f.display_name {
        Some(d) => d.clone(),
        None => String::from_str("未知"),
    }
}

impl SummonerInfo {
    /// Builds the player snapshot from the fields of a response.
    pub fn from_fields(f: &SummonerFields) -> (r: SummonerInfo)
        ensures
            r.display_name@ == display_name_spec(*f),
            r.summoner_level == field_u32_spec(f.summoner_level),
            r.profile_icon_id == field_u32_spec(f.profile_icon_id),
            r.xp_since_last_level == field_u32_spec(f.xp_since_last_level),
            r.xp_until_next_level == field_u32_spec(f.xp_until_next_level),
    {
        SummonerInfo {
            display_name: display_name_of(f),
            summoner_level: field_u32(f.summoner_level),
            profile_icon_id: field_u32(f.profile_icon_id),
            xp_since_last_level: field_u32(f.xp_since_last_level),
            xp_until_next_level: field_u32(f.xp_until_next_level),
        }
    }
}

impl GameflowSession {
    /// The session of a response whose phase field is `phase`; a missing
    /// phase reads as the default phase.
    pub fn from_phase_field(phase: Option<String>) -> (r: GameflowSession)
        ensures
            r.phase@ == match phase {
                Some(p) => p@,
                None => "None"@,
            },
    {
        match phase {
            Some(p) => GameflowSession { phase: p },
            None => GameflowSession { phase: String::from_str("None") },
        }
    }
}

pub open spec fn elevated_message(is_admin: bool) -> Seq<char> {
    if is_admin {
        "应用正在以管理员权限运行"@
    } else {
        "应用未以管理员权限运行，可能无法检测到英雄联盟进程"@
    }
}

pub open spec fn root_message(is_admin: bool) -> Seq<char> {
    if is_admin {
        "应用正在以root权限运行"@
    } else {
        "应用未以root权限运行"@
    }
}

/// User id assumed when the current one cannot be read.
pub const FALLBACK_UID: u32 = 1000;

impl AdminStatus {
    /// Status from the elevation flag of the process token.
    pub fn from_elevation(elevated: bool) -> (r: AdminStatus)
        ensures
            r.is_admin == elevated,
            r.message@ == elevated_message(elevated),
    {
        let message = if elevated {
            String::from_str("应用正在以管理员权限运行")
        } else {
            String::from_str("应用未以管理员权限运行，可能无法检测到英雄联盟进程")
        };
        AdminStatus { is_admin: elevated, message }
    }

    /// Status from the current user id; an unreadable id counts as an
    /// ordinary user.
    pub fn from_uid(uid: Option<u32>) -> (r: AdminStatus)
        ensures
            r.is_admin == (uid == Some(0u32)),
            r.message@ == root_message(uid == Some(0u32)),
    {
        let id: u32 = match uid {
            Some(u) => u,
            None => FALLBACK_UID,
        };
        let is_admin = id == 0;
        let message = if is_admin {
            String::from_str("应用正在以root权限运行")
        } else {
            String::from_str("应用未以root权限运行")
        };
        AdminStatus { is_admin, message }
    }
}

} // verus!
