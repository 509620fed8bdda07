use lol_accept::cmd;
use lol_accept::platform::lcu_auth::{auth_from_matches, match_stdout, LcuAuth};

const COMMAND_LINE: &str = "\"C:/Riot Games/League of Legends/LeagueClientUx.exe\" \"--riotclient-auth-token=zzz\" \"--riotclient-app-port=61111\" \"--app-port=54321\" \"--remoting-auth-token=Xy_z-12\" \"--install-directory=C:/Riot Games/League of Legends\" \"--app-name=LeagueClient\"";

#[test]
fn discovers_port_and_token_from_command_line() {
    let auth = match_stdout(COMMAND_LINE).expect("credentials");
    assert_eq!(auth.base_url, "https://127.0.0.1:54321");
    assert_eq!(auth.token, "Xy_z-12");
}

#[test]
fn token_loses_backslashes_and_quotes() {
    let line = "--app-port=1 --remoting-auth-token=a\\b\"c\"";
    let auth = match_stdout(line).expect("credentials");
    assert_eq!(auth.base_url, "https://127.0.0.1:1");
    assert_eq!(auth.token, "abc");
}

#[test]
fn no_credentials_without_port() {
    assert_eq!(match_stdout("--remoting-auth-token=abc"), None);
    assert_eq!(match_stdout("--app-port= --remoting-auth-token=abc"), None);
}

#[test]
fn no_credentials_without_token() {
    assert_eq!(match_stdout("--app-port=1234"), None);
    assert_eq!(match_stdout(""), None);
}

#[test]
fn credentials_from_given_matches() {
    let auth = auth_from_matches(
        Some("--app-port=8080".to_string()),
        Some("--remoting-auth-token=\"tok\"".to_string()),
    );
    assert_eq!(
        auth,
        Some(LcuAuth { base_url: "https://127.0.0.1:8080".to_string(), token: "tok".to_string() })
    );
    assert_eq!(auth_from_matches(None, Some("--remoting-auth-token=t".to_string())), None);
    assert_eq!(auth_from_matches(Some("--app-port=1".to_string()), None), None);
}

#[test]
fn cloned_credentials_are_equal() {
    let auth = LcuAuth { base_url: "u".to_string(), token: "t".to_string() };
    assert_eq!(auth.clone(), auth);
}

#[test]
fn legacy_credentials_with_install_directory() {
    let auth = cmd::match_stdout(COMMAND_LINE);
    assert_eq!(auth.port, "54321");
    assert_eq!(auth.base_url, "https://127.0.0.1:54321");
    assert_eq!(auth.token, "Xy_z-12");
    assert_eq!(auth.install_dir, "C:/Riot Games/League of Legends/");
}

#[test]
fn legacy_credentials_defaults() {
    let auth = cmd::match_stdout("nothing to see");
    assert_eq!(auth.port, "0");
    assert_eq!(auth.base_url, "https://127.0.0.1:0");
    assert_eq!(auth.token, "");
    assert_eq!(auth.install_dir, "/");
}

#[test]
fn legacy_make_base_url() {
    assert_eq!(cmd::make_base_url("2999"), "https://127.0.0.1:2999");
    assert_eq!(cmd::make_base_url(""), "https://127.0.0.1:");
}

#[test]
fn legacy_default_is_empty() {
    let auth = cmd::LcuAuth::default();
    assert_eq!(auth.base_url, "");
    assert_eq!(auth.token, "");
    assert_eq!(auth.port, "");
    assert_eq!(auth.install_dir, "");
}
