use micept::client::{
    auth_header, basic_auth_value, check_status, credentials_from_args, credentials_from_process,
    endpoint_url, find_credentials, AdminStatus, Endpoint, GameflowSession, LcuError,
    ProcessEntry, SummonerFields, SummonerInfo,
};

fn args(v: &[&str]) -> Vec<String> {
    v.iter().map(|s| s.to_string()).collect()
}

#[test]
fn credentials_read_from_arguments() {
    let a = args(&["LeagueClientUx", "--app-port=54321", "--remoting-auth-token=abcDEF123", "--x"]);
    let c = credentials_from_args(&a).unwrap();
    assert_eq!(c.port, "54321");
    assert_eq!(c.token, "abcDEF123");
    assert!(c.is_connected);
}

#[test]
fn credentials_need_port_and_token() {
    assert!(credentials_from_args(&args(&["--app-port=1"])).is_none());
    assert!(credentials_from_args(&args(&["--remoting-auth-token=t"])).is_none());
    assert!(credentials_from_args(&args(&["--app-port=", "--remoting-auth-token=t"])).is_none());
    assert!(credentials_from_args(&args(&[])).is_none());
}

#[test]
fn credentials_last_flag_wins() {
    let a = args(&["--app-port=1", "--remoting-auth-token=a", "--app-port=2"]);
    let c = credentials_from_args(&a).unwrap();
    assert_eq!(c.port, "2");
    assert_eq!(c.token, "a");
}

#[test]
fn credentials_only_from_client_process() {
    let other = ProcessEntry {
        name: "bash".to_string(),
        args: args(&["--app-port=9", "--remoting-auth-token=zz"]),
    };
    let client = ProcessEntry {
        name: "LeagueClientUx.exe".to_string(),
        args: args(&["--app-port=7", "--remoting-auth-token=yy"]),
    };
    assert!(credentials_from_process(&other).is_none());
    let found = find_credentials(&vec![other, client]).unwrap();
    assert_eq!(found.port, "7");
    assert_eq!(found.token, "yy");
    assert!(find_credentials(&vec![]).is_none());
}

#[test]
fn auth_header_is_basic_base64() {
    assert_eq!(auth_header("abc"), "Basic cmlvdDphYmM=");
    assert_eq!(basic_auth_value("xyz"), "Basic xyz");
}

#[test]
fn endpoint_urls() {
    assert_eq!(
        endpoint_url("54321", Endpoint::CurrentSummoner),
        "https://127.0.0.1:54321/lol-summoner/v1/current-summoner"
    );
    assert_eq!(
        endpoint_url("1", Endpoint::GameflowSession),
        "https://127.0.0.1:1/lol-gameflow/v1/session"
    );
    assert_eq!(
        endpoint_url("2", Endpoint::ReadyCheckAccept),
        "https://127.0.0.1:2/lol-matchmaking/v1/ready-check/accept"
    );
}

#[test]
fn status_codes() {
    assert_eq!(check_status(200), Ok(()));
    assert_eq!(check_status(204), Ok(()));
    assert_eq!(check_status(299), Ok(()));
    assert_eq!(check_status(199), Err(LcuError::ProtocolError(199)));
    assert_eq!(check_status(300), Err(LcuError::ProtocolError(300)));
    assert_eq!(check_status(404), Err(LcuError::ProtocolError(404)));
}

fn fields(game: Option<&str>, tag: Option<&str>, disp: Option<&str>) -> SummonerFields {
    SummonerFields {
        game_name: game.map(|s| s.to_string()),
        tag_line: tag.map(|s| s.to_string()),
        display_name: disp.map(|s| s.to_string()),
        summoner_level: Some(42),
        profile_icon_id: Some(7),
        xp_since_last_level: None,
        xp_until_next_level: Some(u32::MAX as u64 + 5),
    }
}

#[test]
fn summoner_display_name_rules() {
    let s = SummonerInfo::from_fields(&fields(Some("Faker"), Some("KR1"), Some("old")));
    assert_eq!(s.display_name, "Faker#KR1");
    let s = SummonerInfo::from_fields(&fields(Some("Faker"), Some(""), Some("old")));
    assert_eq!(s.display_name, "Faker");
    let s = SummonerInfo::from_fields(&fields(Some("Faker"), None, None));
    assert_eq!(s.display_name, "Faker");
    let s = SummonerInfo::from_fields(&fields(Some(""), Some("KR1"), Some("old")));
    assert_eq!(s.display_name, "old");
    let s = SummonerInfo::from_fields(&fields(None, None, None));
    assert_eq!(s.display_name, "未知");
}

#[test]
fn summoner_numbers() {
    let s = SummonerInfo::from_fields(&fields(None, None, Some("x")));
    assert_eq!(s.summoner_level, 42);
    assert_eq!(s.profile_icon_id, 7);
    assert_eq!(s.xp_since_last_level, 0);
    assert_eq!(s.xp_until_next_level, 4);
}

#[test]
fn gameflow_session_phase() {
    assert_eq!(GameflowSession::from_phase_field(Some("Lobby".to_string())).phase, "Lobby");
    assert_eq!(GameflowSession::from_phase_field(None).phase, "None");
}

#[test]
fn admin_status_messages() {
    let a = AdminStatus::from_uid(Some(0));
    assert!(a.is_admin);
    assert_eq!(a.message, "应用正在以root权限运行");
    let a = AdminStatus::from_uid(Some(1000));
    assert!(!a.is_admin);
    assert_eq!(a.message, "应用未以root权限运行");
    assert!(!AdminStatus::from_uid(None).is_admin);
    let e = AdminStatus::from_elevation(true);
    assert!(e.is_admin);
    assert_eq!(e.message, "应用正在以管理员权限运行");
    assert!(!AdminStatus::from_elevation(false).is_admin);
}
