use lol_accept::acceptor::{
    AcceptorAction, AcceptorCommand, AcceptorEvent, AcceptorState, Stage, ACCEPTED_WAIT_MS,
    MATCHMAKING_WAIT_MS, OTHER_PHASE_WAIT_MS, PAUSED_WAIT_MS, RETRY_WAIT_MS,
};
use lol_accept::lcu::GameflowPhase;
use lol_accept::platform::lcu_auth::LcuAuth;

fn auth() -> LcuAuth {
    LcuAuth { base_url: "https://127.0.0.1:1234".to_string(), token: "secret".to_string() }
}

fn running_with_auth() -> AcceptorState {
    let (state, action) = AcceptorState::start();
    assert_eq!(action, AcceptorAction::Discover);
    let (state, action) = state.step(AcceptorEvent::Discovered(Some(auth())));
    assert_eq!(action, AcceptorAction::ReceiveCommand);
    state
}

#[test]
fn starts_by_discovering() {
    let (state, action) = AcceptorState::start();
    assert_eq!(action, AcceptorAction::Discover);
    assert!(!state.paused);
    assert_eq!(state.auth, None);
    assert_eq!(state.stage, Stage::Starting);
}

#[test]
fn accepts_a_ready_check() {
    let state = running_with_auth();
    let (state, action) = state.step(AcceptorEvent::NoCommand);
    assert_eq!(action, AcceptorAction::FetchPhase(auth()));
    let (state, action) = state.step(AcceptorEvent::PhaseFetched(Some(GameflowPhase::ReadyCheck)));
    assert_eq!(action, AcceptorAction::AcceptMatch(auth()));
    let (state, action) = state.step(AcceptorEvent::AcceptFinished);
    assert_eq!(action, AcceptorAction::Sleep(ACCEPTED_WAIT_MS));
    assert_eq!(ACCEPTED_WAIT_MS, 2000);
    let (_state, action) = state.step(AcceptorEvent::Slept);
    assert_eq!(action, AcceptorAction::ReceiveCommand);
}

#[test]
fn waits_by_phase() {
    let state = running_with_auth();
    let (state, _) = state.step(AcceptorEvent::NoCommand);
    let (state, action) = state.step(AcceptorEvent::PhaseFetched(Some(GameflowPhase::Matchmaking)));
    assert_eq!(action, AcceptorAction::Sleep(MATCHMAKING_WAIT_MS));
    assert_eq!(MATCHMAKING_WAIT_MS, 500);
    let (state, _) = state.step(AcceptorEvent::Slept);
    let (state, _) = state.step(AcceptorEvent::NoCommand);
    let (_state, action) = state.step(AcceptorEvent::PhaseFetched(Some(GameflowPhase::Lobby)));
    assert_eq!(action, AcceptorAction::Sleep(OTHER_PHASE_WAIT_MS));
    assert_eq!(OTHER_PHASE_WAIT_MS, 5000);
}

#[test]
fn failed_phase_request_leads_to_new_search() {
    let state = running_with_auth();
    let (state, _) = state.step(AcceptorEvent::NoCommand);
    let (state, action) = state.step(AcceptorEvent::PhaseFetched(None));
    assert_eq!(action, AcceptorAction::Sleep(RETRY_WAIT_MS));
    assert_eq!(RETRY_WAIT_MS, 10000);
    let (state, action) = state.step(AcceptorEvent::Slept);
    assert_eq!(action, AcceptorAction::Discover);
    let (state, action) = state.step(AcceptorEvent::Discovered(None));
    assert_eq!(action, AcceptorAction::ReceiveCommand);
    assert_eq!(state.auth, None);
    let (_state, action) = state.step(AcceptorEvent::NoCommand);
    assert_eq!(action, AcceptorAction::Sleep(RETRY_WAIT_MS));
}

#[test]
fn pause_stops_polling_until_start() {
    let state = running_with_auth();
    let (state, action) = state.step(AcceptorEvent::Command(AcceptorCommand::Pause));
    assert_eq!(action, AcceptorAction::ReceiveCommand);
    assert!(state.paused);
    let (state, action) = state.step(AcceptorEvent::NoCommand);
    assert_eq!(action, AcceptorAction::Sleep(PAUSED_WAIT_MS));
    assert_eq!(PAUSED_WAIT_MS, 1000);
    let (state, action) = state.step(AcceptorEvent::Slept);
    assert_eq!(action, AcceptorAction::ReceiveCommand);
    let (state, _) = state.step(AcceptorEvent::Command(AcceptorCommand::Start));
    assert!(!state.paused);
    let (_state, action) = state.step(AcceptorEvent::NoCommand);
    assert_eq!(action, AcceptorAction::FetchPhase(auth()));
}

#[test]
fn shutdown_exits_for_good() {
    let state = running_with_auth();
    let (state, action) = state.step(AcceptorEvent::Command(AcceptorCommand::Shutdown));
    assert_eq!(action, AcceptorAction::Exit);
    assert_eq!(state.stage, Stage::Stopped);
    let (state, action) = state.step(AcceptorEvent::NoCommand);
    assert_eq!(action, AcceptorAction::Exit);
    assert_eq!(state.stage, Stage::Stopped);
}

#[test]
fn dodge_with_known_client() {
    let state = running_with_auth();
    let (state, action) = state.step(AcceptorEvent::Command(AcceptorCommand::DodgeLobby));
    assert_eq!(action, AcceptorAction::DodgeLobby(auth()));
    let (state, action) = state.step(AcceptorEvent::DodgeFinished(true));
    assert_eq!(action, AcceptorAction::ReceiveCommand);
    assert_eq!(state.auth, Some(auth()));
}

#[test]
fn failed_dodge_forgets_credentials() {
    let state = running_with_auth();
    let (state, _) = state.step(AcceptorEvent::Command(AcceptorCommand::DodgeLobby));
    let (state, action) = state.step(AcceptorEvent::DodgeFinished(false));
    assert_eq!(action, AcceptorAction::ReceiveCommand);
    assert_eq!(state.auth, None);
}

#[test]
fn dodge_without_client_searches_first() {
    let (state, _) = AcceptorState::start();
    let (state, _) = state.step(AcceptorEvent::Discovered(None));
    let (state, action) = state.step(AcceptorEvent::Command(AcceptorCommand::DodgeLobby));
    assert_eq!(action, AcceptorAction::Discover);
    let (state, action) = state.step(AcceptorEvent::Discovered(Some(auth())));
    assert_eq!(action, AcceptorAction::DodgeLobby(auth()));
    assert_eq!(state.stage, Stage::Dodging);

    let (state, _) = AcceptorState::start();
    let (state, _) = state.step(AcceptorEvent::Discovered(None));
    let (state, _) = state.step(AcceptorEvent::Command(AcceptorCommand::DodgeLobby));
    let (state, action) = state.step(AcceptorEvent::Discovered(None));
    assert_eq!(action, AcceptorAction::ReceiveCommand);
    assert_eq!(state.stage, Stage::Draining);
}

#[test]
fn unexpected_event_repeats_pending_action() {
    let state = running_with_auth();
    let (state, _) = state.step(AcceptorEvent::NoCommand);
    let (state, action) = state.step(AcceptorEvent::Slept);
    assert_eq!(action, AcceptorAction::FetchPhase(auth()));
    assert_eq!(state.stage, Stage::Polling);
    assert_eq!(state.pending(), AcceptorAction::FetchPhase(auth()));
}

#[test]
fn paused_run_never_polls() {
    let state = running_with_auth();
    let (mut state, _) = state.step(AcceptorEvent::Command(AcceptorCommand::Pause));
    let events = vec![
        AcceptorEvent::NoCommand,
        AcceptorEvent::PhaseFetched(Some(GameflowPhase::ReadyCheck)),
        AcceptorEvent::Slept,
        AcceptorEvent::Command(AcceptorCommand::DodgeLobby),
        AcceptorEvent::DodgeFinished(true),
        AcceptorEvent::NoCommand,
        AcceptorEvent::Slept,
        AcceptorEvent::NoCommand,
    ];
    for event in events {
        let (next_state, action) = state.step(event);
        assert!(!matches!(action, AcceptorAction::FetchPhase(_) | AcceptorAction::AcceptMatch(_)));
        state = next_state;
    }
    assert!(state.paused);
}

#[test]
fn requests_use_latest_found_credentials() {
    let other = LcuAuth { base_url: "https://127.0.0.1:999".to_string(), token: "new".to_string() };
    let state = running_with_auth();
    let (state, _) = state.step(AcceptorEvent::NoCommand);
    let (state, _) = state.step(AcceptorEvent::PhaseFetched(None));
    let (state, _) = state.step(AcceptorEvent::Slept);
    let (state, _) = state.step(AcceptorEvent::Discovered(Some(other.clone())));
    let (state, action) = state.step(AcceptorEvent::NoCommand);
    assert_eq!(action, AcceptorAction::FetchPhase(other.clone()));
    let (_state, action) = state.step(AcceptorEvent::PhaseFetched(Some(GameflowPhase::ReadyCheck)));
    assert_eq!(action, AcceptorAction::AcceptMatch(other));
}
