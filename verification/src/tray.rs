//! The tray menu's state: which items can be clicked, and what a click asks
//! the rest of the program to do. Drawing the menu and running the event loop
//! are left to the application.
use vstd::prelude::*;

verus! {

/// Tooltip of the tray icon.
pub const TOOLTIP: &'static str = "LoL-Accept";

/// The menu items a click can come from.
#[derive(Debug, Clone, Copy, PartialEq, Eq, Structural)]
pub enum MenuItemKind {
    Start,
    Pause,
    StartupYes,
    StartupNo,
    Quit,
}

/// What a click asks the program to do.
#[derive(Debug, Clone, Copy, PartialEq, Eq, Structural)]
pub enum MenuEffect {
    /// Set the acceptor's pause flag to the given value.
    SetPaused(bool),
    /// Clean up a stale startup entry, then add the startup entry.
    EnableStartup,
    /// Clean up a stale startup entry, then remove the startup entry.
    DisableStartup,
    /// Tell the acceptor to end and leave the event loop.
    Quit,
}

/// Which menu items are enabled.
#[derive(Debug, Clone, Copy, PartialEq, Eq, Structural)]
pub struct MenuState {
    pub start_enabled: bool,
    pub pause_enabled: bool,
    pub startup_yes_enabled: bool,
    pub startup_no_enabled: bool,
}

impl MenuState {
    /// Exactly one of Start and Pause, and exactly one of the startup choices,
    /// can be clicked.
    pub open spec fn wf(self) -> bool {
        &&& self.start_enabled != self.pause_enabled
        &&& self.startup_yes_enabled != self.startup_no_enabled
    }

    /// The menu as the application opens it: running (only Pause enabled), and
    /// offering the startup choice that is not in effect.
    pub open spec fn initial_spec(in_startup: bool) -> MenuState {
        MenuState {
            start_enabled: false,
            pause_enabled: true,
            startup_yes_enabled: !in_startup,
            startup_no_enabled: in_startup,
        }
    }

    /// The menu after a click on `item`, and what the click asks for.
    pub open spec fn select_spec(self, item: MenuItemKind) -> (MenuState, MenuEffect) {
        match item {
            MenuItemKind::Start => (
                MenuState { start_enabled: false, pause_enabled: true, ..self },
                MenuEffect::SetPaused(false),
            ),
            MenuItemKind::Pause => (
                MenuState { start_enabled: true, pause_enabled: false, ..self },
                MenuEffect::SetPaused(true),
            ),
            MenuItemKind::StartupYes => (
                MenuState { startup_yes_enabled: false, startup_no_enabled: true, ..self },
                MenuEffect::EnableStartup,
            ),
            MenuItemKind::StartupNo => (
                MenuState { startup_yes_enabled: true, startup_no_enabled: false, ..self },
                MenuEffect::DisableStartup,
            ),
            MenuItemKind::Quit => (self, MenuEffect::Quit),
        }
    }

    /// The menu as the application opens it.
    pub fn initial(in_startup: bool) -> (r: MenuState)
        ensures
            r == MenuState::initial_spec(in_startup),
            r.wf(),
    {
        MenuState {
            start_enabled: false,
            pause_enabled: true,
            startup_yes_enabled: !in_startup,
            startup_no_enabled: in_startup,
        }
    }

    /// Handles a click on `item`.
    pub fn select(self, item: MenuItemKind) -> (r: (MenuState, MenuEffect))
        ensures
            r == self.select_spec(item),
    {
        match item {
            MenuItemKind::Start => (
                MenuState { start_enabled: false, pause_enabled: true, ..self },
                MenuEffect::SetPaused(false),
            ),
            MenuItemKind::Pause => (
                MenuState { start_enabled: true, pause_enabled: false, ..self },
                MenuEffect::SetPaused(true),
            ),
            MenuItemKind::StartupYes => (
                MenuState { startup_yes_enabled: false, startup_no_enabled: true, ..self },
                MenuEffect::EnableStartup,
            ),
            MenuItemKind::StartupNo => (
                MenuState { startup_yes_enabled: true, startup_no_enabled: false, ..self },
                MenuEffect::DisableStartup,
            ),
            MenuItemKind::Quit => (self, MenuEffect::Quit),
        }
    }
}

/// Every click keeps exactly one of Start/Pause and one startup choice
/// enabled.
pub proof fn law_select_keeps_wf(s: MenuState, item: MenuItemKind)
    requires
        s.wf(),
    ensures
        s.select_spec(item).0.wf(),
{
}

/// After a click that sets the pause flag, the item that is enabled is the
/// one that flips it back: Pause while running, Start while paused.
pub proof fn law_menu_mirrors_pause(s: MenuState, item: MenuItemKind)
    ensures
        s.select_spec(item).1 matches MenuEffect::SetPaused(p) ==> (
            s.select_spec(item).0.start_enabled == p && s.select_spec(item).0.pause_enabled == !p
        ),
{
}

/// After a click on a startup choice, the item that is enabled is the one
/// that undoes it; clicking it restores the menu.
pub proof fn law_startup_choice_undoes(s: MenuState)
    requires
        s.wf(),
    ensures
        s.startup_yes_enabled ==> s.select_spec(MenuItemKind::StartupYes).0.select_spec(
            MenuItemKind::StartupNo,
        ).0 == s,
        s.startup_no_enabled ==> s.select_spec(MenuItemKind::StartupNo).0.select_spec(
            MenuItemKind::StartupYes,
        ).0 == s,
        s.start_enabled ==> s.select_spec(MenuItemKind::Start).0.select_spec(
            MenuItemKind::Pause,
        ).0 == s,
        s.pause_enabled ==> s.select_spec(MenuItemKind::Pause).0.select_spec(
            MenuItemKind::Start,
        ).0 == s,
{
}

/// The opening menu offers to add the startup entry exactly when it is not
/// in effect.
pub proof fn law_initial_menu(in_startup: bool)
    ensures
        MenuState::initial_spec(in_startup).wf(),
        MenuState::initial_spec(in_startup).startup_yes_enabled == !in_startup,
        MenuState::initial_spec(in_startup).pause_enabled,
{
}


/// Whatever the menu shows, a click on Pause asks to pause and a click on
/// Start asks to run; the startup choices ask to add and to remove the
/// startup entry; Quit asks to quit and leaves the menu as it is. Each click
/// disables the item clicked and enables its counterpart, touching nothing
/// else.
pub proof fn law_select_effects(s: MenuState)
    ensures
        s.select_spec(MenuItemKind::Pause).1 == MenuEffect::SetPaused(true),
        s.select_spec(MenuItemKind::Start).1 == MenuEffect::SetPaused(false),
        s.select_spec(MenuItemKind::StartupYes).1 == MenuEffect::EnableStartup,
        s.select_spec(MenuItemKind::StartupNo).1 == MenuEffect::DisableStartup,
        s.select_spec(MenuItemKind::Quit) == (s, MenuEffect::Quit),
        s.select_spec(MenuItemKind::Pause).0 == (MenuState {
            start_enabled: true,
            pause_enabled: false,
            startup_yes_enabled: s.startup_yes_enabled,
            startup_no_enabled: s.startup_no_enabled,
        }),
        s.select_spec(MenuItemKind::Start).0 == (MenuState {
            start_enabled: false,
            pause_enabled: true,
            startup_yes_enabled: s.startup_yes_enabled,
            startup_no_enabled: s.startup_no_enabled,
        }),
        s.select_spec(MenuItemKind::StartupYes).0 == (MenuState {
            start_enabled: s.start_enabled,
            pause_enabled: s.pause_enabled,
            startup_yes_enabled: false,
            startup_no_enabled: true,
        }),
        s.select_spec(MenuItemKind::StartupNo).0 == (MenuState {
            start_enabled: s.start_enabled,
            pause_enabled: s.pause_enabled,
            startup_yes_enabled: true,
            startup_no_enabled: false,
        }),
{
}

/// The opening menu: only Pause of the two run items is enabled, and the
/// startup choice offered is the one not in effect.
pub proof fn law_initial_menu_exact(in_startup: bool)
    ensures
        MenuState::initial_spec(in_startup) == (MenuState {
            start_enabled: false,
            pause_enabled: true,
            startup_yes_enabled: !in_startup,
            startup_no_enabled: in_startup,
        }),
{
}

} // verus!
