use lol_accept::accept::{
    is_ready_check, lockfile_path, parse_lockfile, phase_text, LockfileError, RoundAction,
    RoundEvent, RoundStage, RoundState, GAME_PROCESS_NAME,
};

#[test]
fn lockfile_gives_header_and_url() {
    let creds = parse_lockfile("LeagueClient:1234:5678:pass:https").expect("five fields");
    assert_eq!(creds.authorization, "Basic cmlvdDpwYXNz");
    assert_eq!(creds.url, "https://127.0.0.1:5678");
}

#[test]
fn lockfile_with_wrong_field_count_is_refused() {
    assert_eq!(parse_lockfile("LeagueClient:1234:5678:pass"), Err(LockfileError::Malformed));
    assert_eq!(parse_lockfile("a:b:c:d:e:f"), Err(LockfileError::Malformed));
    assert_eq!(parse_lockfile(""), Err(LockfileError::Malformed));
    assert_eq!(LockfileError::Malformed.message(), "Could not parse data from lockfile");
}

#[test]
fn lockfile_with_empty_fields() {
    let creds = parse_lockfile("::::").expect("five empty fields");
    assert_eq!(creds.authorization, "Basic cmlvdDo=");
    assert_eq!(creds.url, "://127.0.0.1:");
}

#[test]
fn lockfile_path_in_directory() {
    assert_eq!(lockfile_path("C:\\Riot Games\\League of Legends"), "C:\\Riot Games\\League of Legends\\lockfile");
}

#[test]
fn round_stops_or_waits_on_flags() {
    let (s, a) = RoundState::start();
    assert_eq!(a, RoundAction::ReadFlags);
    assert_eq!(s.session_pid, None);
    let (stopped, a) = s.step(RoundEvent::Flags { terminate: true, paused: false });
    assert_eq!(a, RoundAction::Exit);
    assert_eq!(stopped.step(RoundEvent::Slept).1, RoundAction::Exit);
    let (_, a) = s.step(RoundEvent::Flags { terminate: true, paused: true });
    assert_eq!(a, RoundAction::Exit);
    let (paused, a) = s.step(RoundEvent::Flags { terminate: false, paused: true });
    assert_eq!(a, RoundAction::Sleep);
    assert_eq!(paused.step(RoundEvent::Slept).1, RoundAction::ReadFlags);
}

#[test]
fn round_opens_session_then_accepts() {
    let (s, _) = RoundState::start();
    let (s, a) = s.step(RoundEvent::Flags { terminate: false, paused: false });
    assert_eq!(a, RoundAction::FindGame);
    let (s, a) = s.step(RoundEvent::GameFound(Some(7)));
    assert_eq!(a, RoundAction::OpenSession(7));
    let (s, a) = s.step(RoundEvent::SessionOpened(true));
    assert_eq!(a, RoundAction::Sleep);
    assert_eq!(s.session_pid, Some(7));
    let (s, _) = s.step(RoundEvent::Slept);
    let (s, _) = s.step(RoundEvent::Flags { terminate: false, paused: false });
    let (s, a) = s.step(RoundEvent::GameFound(Some(7)));
    assert_eq!(a, RoundAction::ReadPhase);
    let (s, a) = s.step(RoundEvent::PhaseRead("ReadyCheck".to_string()));
    assert_eq!(a, RoundAction::AcceptMatch);
    let (s, a) = s.step(RoundEvent::Accepted);
    assert_eq!(a, RoundAction::Sleep);
    assert_eq!(s.stage, RoundStage::Sleeping);
}

#[test]
fn round_other_phase_or_no_game_waits() {
    let s = RoundState { session_pid: Some(7), stage: RoundStage::ReadingPhase };
    assert_eq!(s.step(RoundEvent::PhaseRead("Lobby".to_string())).1, RoundAction::Sleep);
    assert_eq!(s.step(RoundEvent::PhaseRead("Phase not found".to_string())).1, RoundAction::Sleep);
    let s = RoundState { session_pid: Some(7), stage: RoundStage::FindingGame };
    assert_eq!(s.step(RoundEvent::GameFound(None)).1, RoundAction::Sleep);
    assert_eq!(s.step(RoundEvent::GameFound(Some(8))).1, RoundAction::OpenSession(8));
}

#[test]
fn round_keeps_old_session_when_opening_fails() {
    let s = RoundState { session_pid: Some(7), stage: RoundStage::OpeningSession(8) };
    let (s, a) = s.step(RoundEvent::SessionOpened(false));
    assert_eq!(a, RoundAction::Sleep);
    assert_eq!(s.session_pid, Some(7));
}

#[test]
fn round_ignores_unexpected_event() {
    let s = RoundState { session_pid: None, stage: RoundStage::FindingGame };
    let (s2, a) = s.step(RoundEvent::Accepted);
    assert_eq!(s2, s);
    assert_eq!(a, RoundAction::FindGame);
}

#[test]
fn phase_texts() {
    assert_eq!(phase_text(Some("\"ReadyCheck\"")), "ReadyCheck");
    assert_eq!(phase_text(None), "Phase not found");
    assert!(is_ready_check("ReadyCheck"));
    assert!(!is_ready_check("\"ReadyCheck\""));
    assert!(!is_ready_check("Phase not found"));
    assert_eq!(GAME_PROCESS_NAME, "LeagueClient.exe");
}

#[test]
fn credentials_from_encoded_login() {
    let creds = lol_accept::accept::credentials_from("QUJD", "http", "80");
    assert_eq!(creds.authorization, "Basic QUJD");
    assert_eq!(creds.url, "http://127.0.0.1:80");
    assert_eq!(lol_accept::accept::basic_login("pw"), "riot:pw");
}
