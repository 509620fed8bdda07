use lol_accept::acceptor::AcceptorCommand;
use lol_accept::app::{command_for, AppController, ControllerRequest};
use lol_accept::platform::startup::{
    entry_is_current, entry_is_stale, judge_startup, startup_command, StartupReport, APP_NAME,
};
use lol_accept::tray::{MenuEffect, MenuItemKind, MenuState};

#[test]
fn startup_command_quotes_the_path() {
    assert_eq!(startup_command("C:\\Apps\\lol-accept.exe"), "\"C:\\Apps\\lol-accept.exe\"");
    assert_eq!(startup_command(""), "\"\"");
    assert_eq!(APP_NAME, "LoL-Accept");
}

#[test]
fn startup_entry_judgement() {
    let current = startup_command("C:\\a.exe");
    assert!(entry_is_current(Some(current.as_str()), &current));
    assert!(!entry_is_stale(Some(current.as_str()), &current));
    assert!(entry_is_stale(Some("\"C:\\old.exe\""), &current));
    assert!(!entry_is_current(Some("\"C:\\old.exe\""), &current));
    assert!(!entry_is_current(None, &current));
    assert!(!entry_is_stale(None, &current));
}

#[test]
fn startup_report() {
    assert_eq!(judge_startup(true, false), StartupReport { enabled: true, rewrite_entry: false });
    assert_eq!(judge_startup(false, true), StartupReport { enabled: true, rewrite_entry: true });
    assert_eq!(judge_startup(false, false), StartupReport { enabled: false, rewrite_entry: false });
}

#[test]
fn tray_menu_opening() {
    let m = MenuState::initial(false);
    assert!(!m.start_enabled && m.pause_enabled);
    assert!(m.startup_yes_enabled && !m.startup_no_enabled);
    let m = MenuState::initial(true);
    assert!(!m.startup_yes_enabled && m.startup_no_enabled);
}

#[test]
fn tray_menu_clicks() {
    let m = MenuState::initial(false);
    let (m, effect) = m.select(MenuItemKind::Pause);
    assert_eq!(effect, MenuEffect::SetPaused(true));
    assert!(m.start_enabled && !m.pause_enabled);
    let (m, effect) = m.select(MenuItemKind::Start);
    assert_eq!(effect, MenuEffect::SetPaused(false));
    assert!(!m.start_enabled && m.pause_enabled);
    let (m, effect) = m.select(MenuItemKind::StartupYes);
    assert_eq!(effect, MenuEffect::EnableStartup);
    assert!(!m.startup_yes_enabled && m.startup_no_enabled);
    let (m, effect) = m.select(MenuItemKind::StartupNo);
    assert_eq!(effect, MenuEffect::DisableStartup);
    assert!(m.startup_yes_enabled && !m.startup_no_enabled);
    let (m2, effect) = m.select(MenuItemKind::Quit);
    assert_eq!(effect, MenuEffect::Quit);
    assert_eq!(m2, m);
}

#[test]
fn controller_sends_commands_in_order() {
    let (tx, rx) = std::sync::mpsc::channel();
    let controller = AppController::new(tx);
    assert!(matches!(rx.try_recv(), Err(std::sync::mpsc::TryRecvError::Empty)));
    assert_eq!(controller.pause(), Ok(()));
    assert_eq!(controller.resume(), Ok(()));
    assert_eq!(controller.dodge_lobby(), Ok(()));
    assert_eq!(controller.quit(), Ok(()));
    assert_eq!(rx.try_recv(), Ok(AcceptorCommand::Pause));
    assert_eq!(rx.try_recv(), Ok(AcceptorCommand::Start));
    assert_eq!(rx.try_recv(), Ok(AcceptorCommand::DodgeLobby));
    assert_eq!(rx.try_recv(), Ok(AcceptorCommand::Shutdown));
    assert!(rx.try_recv().is_err());
}

#[test]
fn controller_ignores_a_closed_channel() {
    let (tx, rx) = std::sync::mpsc::channel();
    drop(rx);
    let controller = AppController::new(tx);
    assert_eq!(controller.pause(), Err(AcceptorCommand::Pause));
    assert_eq!(controller.resume(), Err(AcceptorCommand::Start));
    assert_eq!(controller.dodge_lobby(), Err(AcceptorCommand::DodgeLobby));
    assert_eq!(controller.quit(), Err(AcceptorCommand::Shutdown));
    assert_eq!(controller.request(ControllerRequest::Pause), Err(AcceptorCommand::Pause));
    assert_eq!(controller.request(ControllerRequest::Resume), Err(AcceptorCommand::Start));
    assert_eq!(controller.request(ControllerRequest::DodgeLobby), Err(AcceptorCommand::DodgeLobby));
    assert_eq!(controller.request(ControllerRequest::Quit), Err(AcceptorCommand::Shutdown));
}

#[test]
fn controller_sends_exactly_one_command_per_request() {
    let (tx, rx) = std::sync::mpsc::channel();
    let controller = AppController::new(tx);
    let _ = controller.dodge_lobby();
    assert_eq!(rx.try_recv(), Ok(AcceptorCommand::DodgeLobby));
    assert!(matches!(rx.try_recv(), Err(std::sync::mpsc::TryRecvError::Empty)));
}

#[test]
fn tray_click_and_its_undo_restore_the_menu() {
    let m = MenuState::initial(false);
    let (m1, _) = m.select(MenuItemKind::StartupYes);
    let (m2, _) = m1.select(MenuItemKind::StartupNo);
    assert_eq!(m2, m);
    let (m3, _) = m.select(MenuItemKind::Pause);
    let (m4, _) = m3.select(MenuItemKind::Start);
    assert_eq!(m4, m);
}

#[test]
fn requests_map_to_commands() {
    assert_eq!(command_for(ControllerRequest::Pause), AcceptorCommand::Pause);
    assert_eq!(command_for(ControllerRequest::Resume), AcceptorCommand::Start);
    assert_eq!(command_for(ControllerRequest::DodgeLobby), AcceptorCommand::DodgeLobby);
    assert_eq!(command_for(ControllerRequest::Quit), AcceptorCommand::Shutdown);
    let (tx, rx) = std::sync::mpsc::channel();
    let controller = AppController::new(tx);
    assert_eq!(controller.request(ControllerRequest::Quit), Ok(()));
    assert_eq!(rx.try_recv(), Ok(AcceptorCommand::Shutdown));
}

#[test]
fn second_cleanup_finds_nothing_stale() {
    let current = startup_command("C:\\new.exe");
    let stored = Some("\"C:\\old.exe\"");
    assert!(entry_is_stale(stored, &current));
    let after: Option<&str> = None;
    assert!(!entry_is_stale(after, &current));
    assert!(!entry_is_stale(Some(current.as_str()), &current));
}
