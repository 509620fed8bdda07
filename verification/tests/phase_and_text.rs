use lol_accept::lcu::{gameflow_phase_url, ready_check_accept_url, GameflowPhase};
use lol_accept::text::{remove_all, remove_chars, same_text, split_char, trim_char};

#[test]
fn phase_from_quoted_body() {
    assert_eq!(GameflowPhase::from_lcu_response("\"ReadyCheck\""), GameflowPhase::ReadyCheck);
    assert_eq!(GameflowPhase::from_lcu_response("\"Matchmaking\""), GameflowPhase::Matchmaking);
    assert_eq!(GameflowPhase::from_lcu_response("\"Lobby\""), GameflowPhase::Lobby);
    assert_eq!(GameflowPhase::from_lcu_response("\"ChampSelect\""), GameflowPhase::ChampSelect);
    assert_eq!(GameflowPhase::from_lcu_response("\"InProgress\""), GameflowPhase::InProgress);
    assert_eq!(GameflowPhase::from_lcu_response("\"Reconnect\""), GameflowPhase::Reconnect);
    assert_eq!(GameflowPhase::from_lcu_response("\"WaitingForStats\""), GameflowPhase::WaitingForStats);
    assert_eq!(GameflowPhase::from_lcu_response("\"PreEndOfGame\""), GameflowPhase::PreEndOfGame);
    assert_eq!(GameflowPhase::from_lcu_response("\"EndOfGame\""), GameflowPhase::EndOfGame);
}

#[test]
fn phase_none_is_idle() {
    assert_eq!(GameflowPhase::from_lcu_response("\"None\""), GameflowPhase::Idle);
    assert_eq!(GameflowPhase::from_lcu_response("None"), GameflowPhase::Idle);
}

#[test]
fn phase_unquoted_and_doubly_quoted() {
    assert_eq!(GameflowPhase::from_lcu_response("ReadyCheck"), GameflowPhase::ReadyCheck);
    assert_eq!(GameflowPhase::from_lcu_response("\"\"ReadyCheck\"\""), GameflowPhase::ReadyCheck);
}

#[test]
fn phase_unknown_texts() {
    assert_eq!(GameflowPhase::from_lcu_response(""), GameflowPhase::Unknown);
    assert_eq!(GameflowPhase::from_lcu_response("\"\""), GameflowPhase::Unknown);
    assert_eq!(GameflowPhase::from_lcu_response("\"readycheck\""), GameflowPhase::Unknown);
    assert_eq!(GameflowPhase::from_lcu_response("\"Ready\"Check\""), GameflowPhase::Unknown);
    assert_eq!(GameflowPhase::from_lcu_response(" \"ReadyCheck\""), GameflowPhase::Unknown);
}

#[test]
fn endpoint_urls() {
    assert_eq!(
        gameflow_phase_url("https://127.0.0.1:5555"),
        "https://127.0.0.1:5555/lol-gameflow/v1/gameflow-phase"
    );
    assert_eq!(
        ready_check_accept_url("https://127.0.0.1:5555"),
        "https://127.0.0.1:5555/lol-matchmaking/v1/ready-check/accept"
    );
}

#[test]
fn trim_char_removes_all_surrounding_copies() {
    assert_eq!(trim_char("\"\"abc\"", '"'), "abc");
    assert_eq!(trim_char("a\"b", '"'), "a\"b");
    assert_eq!(trim_char("\"\"\"", '"'), "");
    assert_eq!(trim_char("", '"'), "");
    assert_eq!(trim_char("é\"", '"'), "é");
}

#[test]
fn remove_all_is_left_to_right_and_non_overlapping() {
    assert_eq!(remove_all("aXXbXXc", "XX"), "abc");
    assert_eq!(remove_all("aaa", "aa"), "a");
    assert_eq!(remove_all("--app-port=--app-port=1", "--app-port="), "1");
    assert_eq!(remove_all("abc", "abcd"), "abc");
    assert_eq!(remove_all("", "x"), "");
}

#[test]
fn remove_chars_drops_every_listed_char() {
    assert_eq!(remove_chars("a\\b\"c\"", &['\\', '"']), "abc");
    assert_eq!(remove_chars("plain", &['\\', '"']), "plain");
    assert_eq!(remove_chars("xyz", &[]), "xyz");
}

#[test]
fn split_char_keeps_empty_pieces() {
    assert_eq!(split_char("a::b", ':'), vec!["a".to_string(), "".to_string(), "b".to_string()]);
    assert_eq!(split_char("", ':'), vec!["".to_string()]);
    assert_eq!(split_char(":", ':'), vec!["".to_string(), "".to_string()]);
    assert_eq!(split_char("abc", ':'), vec!["abc".to_string()]);
}

#[test]
fn same_text_compares_characters() {
    assert!(same_text("abc", "abc"));
    assert!(!same_text("abc", "abd"));
    assert!(!same_text("abc", "ab"));
    assert!(same_text("", ""));
}

#[test]
fn lobby_dodge_endpoint() {
    assert_eq!(
        lol_accept::lcu::lobby_dodge_url("https://127.0.0.1:1"),
        "https://127.0.0.1:1/lol-login/v1/session/invoke?destination=lcdsServiceProxy&method=call&args=[\"\",\"teambuilder-draft\",\"quitV2\",\"\"]"
    );
}

#[test]
fn remove_all_with_empty_pattern_keeps_text() {
    assert_eq!(remove_all("abc", ""), "abc");
    assert_eq!(remove_all("", ""), "");
}

#[test]
fn phase_names_read_back() {
    let all = [
        GameflowPhase::Idle,
        GameflowPhase::Lobby,
        GameflowPhase::Matchmaking,
        GameflowPhase::ReadyCheck,
        GameflowPhase::ChampSelect,
        GameflowPhase::InProgress,
        GameflowPhase::Reconnect,
        GameflowPhase::WaitingForStats,
        GameflowPhase::PreEndOfGame,
        GameflowPhase::EndOfGame,
        GameflowPhase::Unknown,
    ];
    for p in all {
        assert_eq!(GameflowPhase::from_lcu_response(p.lcu_name()), p);
        assert_eq!(GameflowPhase::from_lcu_response(&format!("\"{}\"", p.lcu_name())), p);
    }
    assert_eq!(GameflowPhase::Idle.lcu_name(), "None");
}
