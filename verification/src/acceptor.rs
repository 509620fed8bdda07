//! The acceptor's control loop as a state machine. The loop drains the
//! commands sent from the tray, then (unless paused) asks the client for its
//! gameflow phase, accepts a ready check, and waits a while that depends on
//! what it saw; when the client cannot be reached it waits longer and looks
//! for the client's credentials again.
//!
//! `step` decides; the caller performs the returned action (receive a
//! command, look for the client, send a request, sleep, stop) and reports
//! what came of it as the next event.
use vstd::prelude::*;

use crate::lcu::GameflowPhase;
use crate::platform::lcu_auth::LcuAuth;

verus! {

/// Requests the tray sends to the acceptor.
#[derive(Debug, Clone, Copy, PartialEq, Eq, Structural)]
pub enum AcceptorCommand {
    Start,
    Pause,
    DodgeLobby,
    Shutdown,
}

/// Milliseconds to wait while paused before looking at the commands again.
pub const PAUSED_WAIT_MS: u64 = 1000;

/// Milliseconds to wait while the client is in matchmaking.
pub const MATCHMAKING_WAIT_MS: u64 = 500;

/// Milliseconds to wait after accepting a ready check.
pub const ACCEPTED_WAIT_MS: u64 = 2000;

/// Milliseconds to wait in any other phase.
pub const OTHER_PHASE_WAIT_MS: u64 = 5000;

/// Milliseconds to wait before looking for the client again.
pub const RETRY_WAIT_MS: u64 = 10000;

/// Where the loop stands: which outcome it awaits.
#[derive(Debug, Clone, Copy, PartialEq, Eq, Structural)]
pub enum Stage {
    /// Awaits the first search for the client.
    Starting,
    /// Awaits the next queued command, or word that there is none.
    Draining,
    /// Awaits a search for the client, made to dodge the lobby.
    DiscoveringForDodge,
    /// Awaits the outcome of the dodge request.
    Dodging,
    /// Awaits the gameflow phase.
    Polling,
    /// Awaits the end of the accept request.
    Accepting,
    /// Awaits the end of a wait of the given milliseconds.
    Resting(u64),
    /// Awaits the end of the wait that precedes a new search for the client.
    BackingOff,
    /// Awaits a new search for the client.
    Rediscovering,
    /// The loop has ended.
    Stopped,
}

/// What the caller learned by performing the last action.
#[derive(Debug, PartialEq, Eq)]
pub enum AcceptorEvent {
    /// A command was taken from the queue.
    Command(AcceptorCommand),
    /// The queue held no command.
    NoCommand,
    /// The search for the client ended, with its credentials if it was found.
    Discovered(Option<LcuAuth>),
    /// The dodge request ended; `true` when it succeeded.
    DodgeFinished(bool),
    /// The phase request ended, with the phase if it succeeded.
    PhaseFetched(Option<GameflowPhase>),
    /// The accept request ended (its outcome does not matter).
    AcceptFinished,
    /// The wait ended.
    Slept,
}

/// What the caller is to do next.
#[derive(Debug, PartialEq, Eq)]
pub enum AcceptorAction {
    /// Take the next command from the queue, without blocking.
    ReceiveCommand,
    /// Look for the running client and its credentials.
    Discover,
    /// Ask the client to leave the lobby.
    DodgeLobby(LcuAuth),
    /// Ask the client for its gameflow phase.
    FetchPhase(LcuAuth),
    /// Accept the ready check.
    AcceptMatch(LcuAuth),
    /// Wait the given milliseconds.
    Sleep(u64),
    /// End the loop.
    Exit,
}

/// The loop's memory: whether it is paused, the client's credentials if
/// known, and the outcome it awaits.
#[derive(Debug, PartialEq, Eq)]
pub struct AcceptorState {
    pub paused: bool,
    pub auth: Option<LcuAuth>,
    pub stage: Stage,
}

impl AcceptorState {
    /// Requests that need the client are only awaited with credentials in
    /// hand, and a paused loop awaits none of the phase or accept requests.
    pub open spec fn wf(self) -> bool {
        &&& (self.stage is Dodging || self.stage is Polling || self.stage is Accepting)
            ==> self.auth is Some
        &&& self.paused ==> !(self.stage is Polling || self.stage is Accepting)
    }

    /// The same memory with another stage.
    pub open spec fn at(self, stage: Stage) -> AcceptorState {
        AcceptorState { paused: self.paused, auth: self.auth, stage }
    }
}

/// The action that the stage awaits the outcome of.
pub open spec fn pending_action(s: AcceptorState) -> AcceptorAction {
    match s.stage {
        Stage::Starting => AcceptorAction::Discover,
        Stage::Draining => AcceptorAction::ReceiveCommand,
        Stage::DiscoveringForDodge => AcceptorAction::Discover,
        Stage::Dodging => AcceptorAction::DodgeLobby(s.auth.unwrap()),
        Stage::Polling => AcceptorAction::FetchPhase(s.auth.unwrap()),
        Stage::Accepting => AcceptorAction::AcceptMatch(s.auth.unwrap()),
        Stage::Resting(ms) => AcceptorAction::Sleep(ms),
        Stage::BackingOff => AcceptorAction::Sleep(RETRY_WAIT_MS),
        Stage::Rediscovering => AcceptorAction::Discover,
        Stage::Stopped => AcceptorAction::Exit,
    }
}

/// Whether `e` is an outcome that the stage awaits.
pub open spec fn expects(stage: Stage, e: AcceptorEvent) -> bool {
    match stage {
        Stage::Starting => e is Discovered,
        Stage::Draining => e is Command || e is NoCommand,
        Stage::DiscoveringForDodge => e is Discovered,
        Stage::Dodging => e is DodgeFinished,
        Stage::Polling => e is PhaseFetched,
        Stage::Accepting => e is AcceptFinished,
        Stage::Resting(_) => e is Slept,
        Stage::BackingOff => e is Slept,
        Stage::Rediscovering => e is Discovered,
        Stage::Stopped => false,
    }
}

/// After the queue is empty: wait while paused, otherwise ask for the phase
/// when the client is known, or wait and look for it again.
pub open spec fn after_commands(s: AcceptorState) -> (AcceptorState, AcceptorAction) {
    if s.paused {
        (s.at(Stage::Resting(PAUSED_WAIT_MS)), AcceptorAction::Sleep(PAUSED_WAIT_MS))
    } else {
        match s.auth {
            Some(a) => (s.at(Stage::Polling), AcceptorAction::FetchPhase(a)),
            None => (s.at(Stage::BackingOff), AcceptorAction::Sleep(RETRY_WAIT_MS)),
        }
    }
}

/// What a command does.
pub open spec fn on_command(s: AcceptorState, c: AcceptorCommand) -> (AcceptorState, AcceptorAction) {
    match c {
        AcceptorCommand::Start => (
            AcceptorState { paused: false, auth: s.auth, stage: Stage::Draining },
            AcceptorAction::ReceiveCommand,
        ),
        AcceptorCommand::Pause => (
            AcceptorState { paused: true, auth: s.auth, stage: Stage::Draining },
            AcceptorAction::ReceiveCommand,
        ),
        AcceptorCommand::DodgeLobby => match s.auth {
            Some(a) => (s.at(Stage::Dodging), AcceptorAction::DodgeLobby(a)),
            None => (s.at(Stage::DiscoveringForDodge), AcceptorAction::Discover),
        },
        AcceptorCommand::Shutdown => (s.at(Stage::Stopped), AcceptorAction::Exit),
    }
}

/// What a fetched phase (or a failed fetch) leads to.
pub open spec fn on_phase(s: AcceptorState, p: Option<GameflowPhase>) -> (AcceptorState, AcceptorAction) {
    match p {
        Some(GameflowPhase::Matchmaking) => (
            s.at(Stage::Resting(MATCHMAKING_WAIT_MS)),
            AcceptorAction::Sleep(MATCHMAKING_WAIT_MS),
        ),
        Some(GameflowPhase::ReadyCheck) => (
            s.at(Stage::Accepting),
            AcceptorAction::AcceptMatch(s.auth.unwrap()),
        ),
        Some(_) => (
            s.at(Stage::Resting(OTHER_PHASE_WAIT_MS)),
            AcceptorAction::Sleep(OTHER_PHASE_WAIT_MS),
        ),
        None => (s.at(Stage::BackingOff), AcceptorAction::Sleep(RETRY_WAIT_MS)),
    }
}

/// One transition of the loop: the new memory and the next action, given the
/// outcome of the last action. An outcome the stage does not await changes
/// nothing and the awaited action is asked for again.
pub open spec fn next(s: AcceptorState, e: AcceptorEvent) -> (AcceptorState, AcceptorAction) {
    if !expects(s.stage, e) {
        (s, pending_action(s))
    } else {
        match e {
            AcceptorEvent::Discovered(found) => match s.stage {
                Stage::DiscoveringForDodge => match found {
                    Some(a) => (
                        AcceptorState { paused: s.paused, auth: found, stage: Stage::Dodging },
                        AcceptorAction::DodgeLobby(a),
                    ),
                    None => (
                        AcceptorState { paused: s.paused, auth: found, stage: Stage::Draining },
                        AcceptorAction::ReceiveCommand,
                    ),
                },
                _ => (
                    AcceptorState { paused: s.paused, auth: found, stage: Stage::Draining },
                    AcceptorAction::ReceiveCommand,
                ),
            },
            AcceptorEvent::Command(c) => on_command(s, c),
            AcceptorEvent::NoCommand => after_commands(s),
            AcceptorEvent::DodgeFinished(ok) => (
                AcceptorState {
                    paused: s.paused,
                    auth: if ok { s.auth } else { None },
                    stage: Stage::Draining,
                },
                AcceptorAction::ReceiveCommand,
            ),
            AcceptorEvent::PhaseFetched(p) => on_phase(s, p),
            AcceptorEvent::AcceptFinished => (
                s.at(Stage::Resting(ACCEPTED_WAIT_MS)),
                AcceptorAction::Sleep(ACCEPTED_WAIT_MS),
            ),
            AcceptorEvent::Slept => match s.stage {
                Stage::BackingOff => (s.at(Stage::Rediscovering), AcceptorAction::Discover),
                _ => (s.at(Stage::Draining), AcceptorAction::ReceiveCommand),
            },
        }
    }
}

/// The state the loop starts in: not paused, no credentials, about to look
/// for the client.
pub open spec fn initial_state() -> AcceptorState {
    AcceptorState { paused: false, auth: None, stage: Stage::Starting }
}

/// Copies optional credentials.
fn clone_auth(a: &Option<LcuAuth>) -> (r: Option<LcuAuth>)
    ensures
        r == *a,
{
    match a {
        Some(x) => Some(x.clone()),
        None => None,
    }
}

impl AcceptorState {
    /// The loop's first state and action: look for the client.
    pub fn start() -> (r: (AcceptorState, AcceptorAction))
        ensures
            r == (initial_state(), AcceptorAction::Discover),
            r.0.wf(),
    {
        (AcceptorState { paused: false, auth: None, stage: Stage::Starting }, AcceptorAction::Discover)
    }

    /// The action this state awaits the outcome of.
    pub fn pending(&self) -> (r: AcceptorAction)
        requires
            self.wf(),
        ensures
            r == pending_action(*self),
    {
        match self.stage {
            Stage::Starting => AcceptorAction::Discover,
            Stage::Draining => AcceptorAction::ReceiveCommand,
            Stage::DiscoveringForDodge => AcceptorAction::Discover,
            Stage::Dodging => AcceptorAction::DodgeLobby(self.auth.as_ref().unwrap().clone()),
            Stage::Polling => AcceptorAction::FetchPhase(self.auth.as_ref().unwrap().clone()),
            Stage::Accepting => AcceptorAction::AcceptMatch(self.auth.as_ref().unwrap().clone()),
            Stage::Resting(ms) => AcceptorAction::Sleep(ms),
            Stage::BackingOff => AcceptorAction::Sleep(RETRY_WAIT_MS),
            Stage::Rediscovering => AcceptorAction::Discover,
            Stage::Stopped => AcceptorAction::Exit,
        }
    }

    /// One transition of the loop (see `next`).
    pub fn step(self, event: AcceptorEvent) -> (r: (AcceptorState, AcceptorAction))
        requires
            self.wf(),
        ensures
            r == next(self, event),
            r.0.wf(),
    {
        let stage = self.stage;
        let paused = self.paused;
        match (stage, event) {
            (Stage::Starting, AcceptorEvent::Discovered(found))
            | (Stage::Rediscovering, AcceptorEvent::Discovered(found)) => {
                (AcceptorState { paused, auth: found, stage: Stage::Draining }, AcceptorAction::ReceiveCommand)
            },
            (Stage::DiscoveringForDodge, AcceptorEvent::Discovered(found)) => {
                match found {
                    Some(a) => {
                        let action = AcceptorAction::DodgeLobby(a.clone());
                        (AcceptorState { paused, auth: Some(a), stage: Stage::Dodging }, action)
                    },
                    None => (
                        AcceptorState { paused, auth: None, stage: Stage::Draining },
                        AcceptorAction::ReceiveCommand,
                    ),
                }
            },
            (Stage::Draining, AcceptorEvent::Command(c)) => {
                match c {
                    AcceptorCommand::Start => (
                        AcceptorState { paused: false, auth: self.auth, stage: Stage::Draining },
                        AcceptorAction::ReceiveCommand,
                    ),
                    AcceptorCommand::Pause => (
                        AcceptorState { paused: true, auth: self.auth, stage: Stage::Draining },
                        AcceptorAction::ReceiveCommand,
                    ),
                    AcceptorCommand::DodgeLobby => {
                        match self.auth {
                            Some(a) => {
                                let action = AcceptorAction::DodgeLobby(a.clone());
                                (AcceptorState { paused, auth: Some(a), stage: Stage::Dodging }, action)
                            },
                            None => (
                                AcceptorState { paused, auth: None, stage: Stage::DiscoveringForDodge },
                                AcceptorAction::Discover,
                            ),
                        }
                    },
                    AcceptorCommand::Shutdown => (
                        AcceptorState { paused, auth: self.auth, stage: Stage::Stopped },
                        AcceptorAction::Exit,
                    ),
                }
            },
            (Stage::Draining, AcceptorEvent::NoCommand) => {
                if paused {
                    (
                        AcceptorState { paused, auth: self.auth, stage: Stage::Resting(PAUSED_WAIT_MS) },
                        AcceptorAction::Sleep(PAUSED_WAIT_MS),
                    )
                } else {
                    match self.auth {
                        Some(a) => {
                            let action = AcceptorAction::FetchPhase(a.clone());
                            (AcceptorState { paused, auth: Some(a), stage: Stage::Polling }, action)
                        },
                        None => (
                            AcceptorState { paused, auth: None, stage: Stage::BackingOff },
                            AcceptorAction::Sleep(RETRY_WAIT_MS),
                        ),
                    }
                }
            },
            (Stage::Dodging, AcceptorEvent::DodgeFinished(ok)) => {
                let auth = if ok { self.auth } else { None };
                (AcceptorState { paused, auth, stage: Stage::Draining }, AcceptorAction::ReceiveCommand)
            },
            (Stage::Polling, AcceptorEvent::PhaseFetched(p)) => {
                match p {
                    Some(GameflowPhase::Matchmaking) => (
                        AcceptorState { paused, auth: self.auth, stage: Stage::Resting(MATCHMAKING_WAIT_MS) },
                        AcceptorAction::Sleep(MATCHMAKING_WAIT_MS),
                    ),
                    Some(GameflowPhase::ReadyCheck) => {
                        let action = AcceptorAction::AcceptMatch(self.auth.as_ref().unwrap().clone());
                        (AcceptorState { paused, auth: self.auth, stage: Stage::Accepting }, action)
                    },
                    Some(_) => (
                        AcceptorState { paused, auth: self.auth, stage: Stage::Resting(OTHER_PHASE_WAIT_MS) },
                        AcceptorAction::Sleep(OTHER_PHASE_WAIT_MS),
                    ),
                    None => (
                        AcceptorState { paused, auth: self.auth, stage: Stage::BackingOff },
                        AcceptorAction::Sleep(RETRY_WAIT_MS),
                    ),
                }
            },
            (Stage::Accepting, AcceptorEvent::AcceptFinished) => (
                AcceptorState { paused, auth: self.auth, stage: Stage::Resting(ACCEPTED_WAIT_MS) },
                AcceptorAction::Sleep(ACCEPTED_WAIT_MS),
            ),
            (Stage::Resting(_), AcceptorEvent::Slept) => (
                AcceptorState { paused, auth: self.auth, stage: Stage::Draining },
                AcceptorAction::ReceiveCommand,
            ),
            (Stage::BackingOff, AcceptorEvent::Slept) => (
                AcceptorState { paused, auth: self.auth, stage: Stage::Rediscovering },
                AcceptorAction::Discover,
            ),
            (_, _) => {
                let action = self.pending();
                (self, action)
            },
        }
    }
}


/// Every transition keeps the state well formed.
pub proof fn law_step_keeps_wf(s: AcceptorState, e: AcceptorEvent)
    requires
        s.wf(),
    ensures
        next(s, e).0.wf(),
{
}

/// The loop starts by looking for the client, not paused and without
/// credentials.
pub proof fn law_start_discovers()
    ensures
        initial_state().wf(),
        pending_action(initial_state()) == AcceptorAction::Discover,
        !initial_state().paused,
        initial_state().auth is None,
{
}

/// A stopped loop stays stopped and only ever asks to exit.
pub proof fn law_stopped_is_final(s: AcceptorState, e: AcceptorEvent)
    requires
        s.stage == Stage::Stopped,
    ensures
        next(s, e) == (s, AcceptorAction::Exit),
{
}

/// A shutdown command stops the loop and nothing else changes.
pub proof fn law_shutdown_stops(s: AcceptorState)
    requires
        s.stage == Stage::Draining,
    ensures
        next(s, AcceptorEvent::Command(AcceptorCommand::Shutdown)) == (
            s.at(Stage::Stopped),
            AcceptorAction::Exit,
        ),
{
}

/// Pause and start only set the pause flag, and the loop goes on reading
/// commands.
pub proof fn law_pause_and_start(s: AcceptorState)
    requires
        s.stage == Stage::Draining,
    ensures
        next(s, AcceptorEvent::Command(AcceptorCommand::Pause)) == (
            AcceptorState { paused: true, auth: s.auth, stage: Stage::Draining },
            AcceptorAction::ReceiveCommand,
        ),
        next(s, AcceptorEvent::Command(AcceptorCommand::Start)) == (
            AcceptorState { paused: false, auth: s.auth, stage: Stage::Draining },
            AcceptorAction::ReceiveCommand,
        ),
{
}

/// A paused loop never asks the client for its phase nor accepts a match: it
/// waits and reads commands again.
pub proof fn law_paused_never_polls(s: AcceptorState, e: AcceptorEvent)
    requires
        s.wf(),
        s.paused,
    ensures
        !(next(s, e).1 is FetchPhase),
        !(next(s, e).1 is AcceptMatch),
        s.stage == Stage::Draining && e is NoCommand ==> next(s, e) == (
            s.at(Stage::Resting(PAUSED_WAIT_MS)),
            AcceptorAction::Sleep(PAUSED_WAIT_MS),
        ),
{
}

/// A match is accepted only right after the client reported a ready check
/// (or when that accept request is asked for again), and with the
/// credentials that reported it.
pub proof fn law_accept_only_on_ready_check(s: AcceptorState, e: AcceptorEvent)
    requires
        s.wf(),
    ensures
        next(s, e).1 is AcceptMatch ==> {
            &&& (s.stage == Stage::Polling && (e matches AcceptorEvent::PhaseFetched(
                Some(GameflowPhase::ReadyCheck),
            ))) || s.stage == Stage::Accepting
            &&& next(s, e).1 == AcceptorAction::AcceptMatch(s.auth.unwrap())
            &&& next(s, e).0.stage == Stage::Accepting
        },
        (s.stage == Stage::Polling && (e matches AcceptorEvent::PhaseFetched(
            Some(GameflowPhase::ReadyCheck),
        ))) ==> next(s, e).1 is AcceptMatch,
{
}

/// The waits: half a second in matchmaking, two seconds after accepting, five
/// seconds in any other phase, ten seconds when the client cannot be asked.
pub proof fn law_phase_waits(s: AcceptorState, p: GameflowPhase)
    requires
        s.wf(),
        s.stage == Stage::Polling,
    ensures
        p == GameflowPhase::Matchmaking ==> next(s, AcceptorEvent::PhaseFetched(Some(p))).1
            == AcceptorAction::Sleep(500),
        p != GameflowPhase::Matchmaking && p != GameflowPhase::ReadyCheck ==> next(
            s,
            AcceptorEvent::PhaseFetched(Some(p)),
        ).1 == AcceptorAction::Sleep(5000),
        next(s, AcceptorEvent::PhaseFetched(None)).1 == AcceptorAction::Sleep(10000),
        next(next(s, AcceptorEvent::PhaseFetched(Some(GameflowPhase::ReadyCheck))).0, AcceptorEvent::AcceptFinished).1
            == AcceptorAction::Sleep(2000),
{
}

/// When the phase cannot be fetched, the loop waits and then looks for the
/// client again, and keeps whatever that search finds.
pub proof fn law_failure_rediscovers(s: AcceptorState, found: Option<LcuAuth>)
    requires
        s.wf(),
        s.stage == Stage::Polling,
    ensures
        ({
            let (s1, a1) = next(s, AcceptorEvent::PhaseFetched(None));
            let (s2, a2) = next(s1, AcceptorEvent::Slept);
            let (s3, a3) = next(s2, AcceptorEvent::Discovered(found));
            &&& a1 == AcceptorAction::Sleep(RETRY_WAIT_MS)
            &&& a2 == AcceptorAction::Discover
            &&& s3.auth == found
            &&& s3.stage == Stage::Draining
            &&& a3 == AcceptorAction::ReceiveCommand
        }),
{
}

/// A failed dodge forgets the credentials; a successful one keeps them.
pub proof fn law_dodge_outcome(s: AcceptorState)
    requires
        s.stage == Stage::Dodging,
    ensures
        next(s, AcceptorEvent::DodgeFinished(false)).0.auth is None,
        next(s, AcceptorEvent::DodgeFinished(true)).0.auth == s.auth,
        next(s, AcceptorEvent::DodgeFinished(false)).1 == AcceptorAction::ReceiveCommand,
{
}

/// Dodging without credentials first looks for the client, and dodges with
/// what it finds.
pub proof fn law_dodge_discovers_first(s: AcceptorState, found: LcuAuth)
    requires
        s.stage == Stage::Draining,
        s.auth is None,
    ensures
        next(s, AcceptorEvent::Command(AcceptorCommand::DodgeLobby)).1 == AcceptorAction::Discover,
        next(
            next(s, AcceptorEvent::Command(AcceptorCommand::DodgeLobby)).0,
            AcceptorEvent::Discovered(Some(found)),
        ).1 == AcceptorAction::DodgeLobby(found),
{
}

/// Dodging with known credentials dodges with them at once; a search for the
/// client before a dodge that finds nothing forgoes the dodge and goes back to
/// reading commands.
pub proof fn law_dodge_uses_known_credentials(s: AcceptorState, a: LcuAuth)
    requires
        s.stage == Stage::Draining,
    ensures
        s.auth == Some(a) ==> next(s, AcceptorEvent::Command(AcceptorCommand::DodgeLobby)) == (
            AcceptorState { paused: s.paused, auth: Some(a), stage: Stage::Dodging },
            AcceptorAction::DodgeLobby(a),
        ),
        s.auth is None ==> next(
            next(s, AcceptorEvent::Command(AcceptorCommand::DodgeLobby)).0,
            AcceptorEvent::Discovered(None),
        ) == (
            AcceptorState { paused: s.paused, auth: None, stage: Stage::Draining },
            AcceptorAction::ReceiveCommand,
        ),
{
}

/// An outcome that the stage does not await changes nothing, and the awaited
/// action is asked for again.
pub proof fn law_unexpected_event_ignored(s: AcceptorState, e: AcceptorEvent)
    requires
        !expects(s.stage, e),
    ensures
        next(s, e) == (s, pending_action(s)),
{
}


/// The actions the loop asks for when it starts in `s` and is given the
/// outcomes `es`, one after the other.
pub open spec fn actions_of_run(s: AcceptorState, es: Seq<AcceptorEvent>) -> Seq<AcceptorAction>
    decreases es.len(),
{
    if es.len() == 0 {
        Seq::empty()
    } else {
        let (s1, a1) = next(s, es[0]);
        seq![a1] + actions_of_run(s1, es.drop_first())
    }
}

/// A run yields one action per outcome.
pub proof fn lemma_run_length(s: AcceptorState, es: Seq<AcceptorEvent>)
    ensures
        actions_of_run(s, es).len() == es.len(),
    decreases es.len(),
{
    if es.len() > 0 {
        lemma_run_length(next(s, es[0]).0, es.drop_first());
    }
}

/// The outcome of a phase request that reported a ready check.
pub open spec fn reports_ready_check(e: AcceptorEvent) -> bool {
    e matches AcceptorEvent::PhaseFetched(Some(GameflowPhase::ReadyCheck))
}

/// The loop enters the accepting stage only from it or on a ready check.
proof fn lemma_enter_accepting(s: AcceptorState, e: AcceptorEvent)
    requires
        s.wf(),
        next(s, e).0.stage == Stage::Accepting,
    ensures
        s.stage == Stage::Accepting || (s.stage == Stage::Polling && reports_ready_check(e)),
{
}

/// Only a start command clears the pause flag.
proof fn lemma_pause_kept(s: AcceptorState, e: AcceptorEvent)
    requires
        s.wf(),
        s.paused,
        e != AcceptorEvent::Command(AcceptorCommand::Start),
    ensures
        next(s, e).0.paused,
{
}

/// In any run, every accept request comes at or after an outcome that
/// reported a ready check, unless the run began while one was being sent.
pub proof fn law_run_accepts_after_ready_check(s: AcceptorState, es: Seq<AcceptorEvent>, j: int)
    requires
        s.wf(),
        0 <= j < es.len(),
        actions_of_run(s, es)[j] is AcceptMatch,
    ensures
        s.stage == Stage::Accepting || exists|i: int| 0 <= i <= j && #[trigger] reports_ready_check(es[i]),
    decreases es.len(),
{
    let (s1, a1) = next(s, es[0]);
    lemma_run_length(s1, es.drop_first());
    assert(actions_of_run(s, es) == seq![a1] + actions_of_run(s1, es.drop_first()));
    if j == 0 {
        law_accept_only_on_ready_check(s, es[0]);
        if s.stage != Stage::Accepting {
            assert(reports_ready_check(es[0]));
        }
    } else {
        law_step_keeps_wf(s, es[0]);
        assert(actions_of_run(s1, es.drop_first())[j - 1] is AcceptMatch);
        law_run_accepts_after_ready_check(s1, es.drop_first(), j - 1);
        if s1.stage == Stage::Accepting {
            lemma_enter_accepting(s, es[0]);
            if s.stage != Stage::Accepting {
                assert(reports_ready_check(es[0]));
            }
        } else {
            let i = choose|i: int| 0 <= i <= j - 1 && #[trigger] reports_ready_check(es.drop_first()[i]);
            assert(es.drop_first()[i] == es[i + 1]);
            assert(reports_ready_check(es[i + 1]));
        }
    }
}

/// From the start, the loop sends an accept request only after the client
/// reported a ready check.
pub proof fn law_accepts_only_after_ready_check(es: Seq<AcceptorEvent>, j: int)
    requires
        0 <= j < es.len(),
        actions_of_run(initial_state(), es)[j] is AcceptMatch,
    ensures
        exists|i: int| 0 <= i <= j && #[trigger] reports_ready_check(es[i]),
{
    law_run_accepts_after_ready_check(initial_state(), es, j);
}

/// While no start command arrives, a paused loop never asks for the phase
/// and never accepts, whatever else happens.
pub proof fn law_paused_run_never_polls(s: AcceptorState, es: Seq<AcceptorEvent>)
    requires
        s.wf(),
        s.paused,
        forall|i: int| 0 <= i < es.len() ==> es[i] != AcceptorEvent::Command(AcceptorCommand::Start),
    ensures
        forall|j: int|
            0 <= j < es.len() ==> !(#[trigger] actions_of_run(s, es)[j] is FetchPhase)
                && !(actions_of_run(s, es)[j] is AcceptMatch),
    decreases es.len(),
{
    if es.len() > 0 {
        let (s1, a1) = next(s, es[0]);
        let rest = es.drop_first();
        lemma_run_length(s1, rest);
        assert(actions_of_run(s, es) == seq![a1] + actions_of_run(s1, rest));
        law_paused_never_polls(s, es[0]);
        law_step_keeps_wf(s, es[0]);
        lemma_pause_kept(s, es[0]);
        assert forall|i: int| 0 <= i < rest.len() implies rest[i] != AcceptorEvent::Command(
            AcceptorCommand::Start,
        ) by {
            assert(rest[i] == es[i + 1]);
        }
        law_paused_run_never_polls(s1, rest);
        assert forall|j: int| 0 <= j < es.len() implies !(#[trigger] actions_of_run(s, es)[j] is FetchPhase)
            && !(actions_of_run(s, es)[j] is AcceptMatch) by {
            if j > 0 {
                assert(actions_of_run(s, es)[j] == actions_of_run(s1, rest)[j - 1]);
            }
        }
    }
}

/// Once stopped, the loop asks for nothing but to exit, whatever happens.
pub proof fn law_stopped_run_only_exits(s: AcceptorState, es: Seq<AcceptorEvent>)
    requires
        s.stage == Stage::Stopped,
    ensures
        forall|j: int| 0 <= j < es.len() ==> #[trigger] actions_of_run(s, es)[j] == AcceptorAction::Exit,
    decreases es.len(),
{
    if es.len() > 0 {
        let rest = es.drop_first();
        lemma_run_length(s, rest);
        assert(next(s, es[0]) == (s, AcceptorAction::Exit));
        assert(actions_of_run(s, es) == seq![AcceptorAction::Exit] + actions_of_run(s, rest));
        law_stopped_run_only_exits(s, rest);
        assert forall|j: int| 0 <= j < es.len() implies #[trigger] actions_of_run(s, es)[j]
            == AcceptorAction::Exit by {
            if j > 0 {
                assert(actions_of_run(s, es)[j] == actions_of_run(s, rest)[j - 1]);
            }
        }
    }
}


/// The loop's memory after the first `n` outcomes of `es`, starting in `s`.
pub open spec fn state_after(s: AcceptorState, es: Seq<AcceptorEvent>, n: int) -> AcceptorState
    decreases n,
{
    if n <= 0 {
        s
    } else {
        next(state_after(s, es, n - 1), es[n - 1]).0
    }
}

/// The action the loop asks for in reply to the outcome `es[n]`.
pub open spec fn action_after(s: AcceptorState, es: Seq<AcceptorEvent>, n: int) -> AcceptorAction {
    next(state_after(s, es, n), es[n]).1
}

/// The credentials a request to the client carries, if the action is one.
pub open spec fn carried_auth(a: AcceptorAction) -> Option<LcuAuth> {
    match a {
        AcceptorAction::DodgeLobby(x) => Some(x),
        AcceptorAction::FetchPhase(x) => Some(x),
        AcceptorAction::AcceptMatch(x) => Some(x),
        _ => None,
    }
}

/// Every request to the client carries the credentials the loop holds.
pub proof fn law_requests_carry_memory(s: AcceptorState, e: AcceptorEvent)
    requires
        s.wf(),
    ensures
        carried_auth(next(s, e).1) matches Some(a) ==> next(s, e).0.auth == Some(a),
{
}

/// The credentials change only by the outcome of a search for the client
/// (they become what it found, possibly nothing) or by a failed dodge (they
/// are dropped).
pub proof fn law_memory_changes_only_by_discovery_or_failed_dodge(s: AcceptorState, e: AcceptorEvent)
    ensures
        next(s, e).0.auth != s.auth ==> ((e matches AcceptorEvent::Discovered(f) && next(s, e).0.auth
            == f) || (e == AcceptorEvent::DodgeFinished(false) && next(s, e).0.auth is None)),
{
}

/// Every state of a run is well formed.
proof fn lemma_state_after_wf(s: AcceptorState, es: Seq<AcceptorEvent>, n: int)
    requires
        s.wf(),
        n <= es.len(),
    ensures
        state_after(s, es, n).wf(),
    decreases n,
{
    if n > 0 {
        lemma_state_after_wf(s, es, n - 1);
        law_step_keeps_wf(state_after(s, es, n - 1), es[n - 1]);
    }
}

/// From the start, credentials held after `n` outcomes were found by a
/// search among them and have been held ever since.
proof fn lemma_held_auth_was_discovered(es: Seq<AcceptorEvent>, n: int, a: LcuAuth)
    requires
        0 <= n <= es.len(),
        state_after(initial_state(), es, n).auth == Some(a),
    ensures
        exists|i: int|
            0 <= i < n && #[trigger] es[i] == AcceptorEvent::Discovered(Some(a)) && forall|k: int|
                i < k <= n ==> (#[trigger] state_after(initial_state(), es, k)).auth == Some(a),
    decreases n,
{
    let s0 = initial_state();
    if n > 0 {
        let p = state_after(s0, es, n - 1);
        let e = es[n - 1];
        law_memory_changes_only_by_discovery_or_failed_dodge(p, e);
        if p.auth == Some(a) {
            lemma_held_auth_was_discovered(es, n - 1, a);
            let i = choose|i: int|
                0 <= i < n - 1 && #[trigger] es[i] == AcceptorEvent::Discovered(Some(a)) && forall|k: int|
                    i < k <= n - 1 ==> (#[trigger] state_after(s0, es, k)).auth == Some(a);
            assert forall|k: int| i < k <= n implies (#[trigger] state_after(s0, es, k)).auth == Some(a) by {
                if k < n {
                    assert(state_after(s0, es, k).auth == Some(a));
                }
            }
        } else {
            assert(es[n - 1] == AcceptorEvent::Discovered(Some(a)));
            assert forall|k: int| n - 1 < k <= n implies (#[trigger] state_after(s0, es, k)).auth == Some(a) by {
            }
        }
    }
}

/// From the start, every request to the client (phase, accept or dodge)
/// carries the credentials of a search that found the client, and the loop
/// has held them without a break since that search: no later search and no
/// failed dodge came in between. So no request is made with made-up
/// credentials, nor after a search that found nothing or a failed dodge.
pub proof fn law_run_requests_use_latest_discovery(es: Seq<AcceptorEvent>, j: int, a: LcuAuth)
    requires
        0 <= j < es.len(),
        carried_auth(action_after(initial_state(), es, j)) == Some(a),
    ensures
        exists|i: int|
            0 <= i <= j && #[trigger] es[i] == AcceptorEvent::Discovered(Some(a)) && forall|k: int|
                i < k <= j + 1 ==> (#[trigger] state_after(initial_state(), es, k)).auth == Some(a),
{
    let s0 = initial_state();
    lemma_state_after_wf(s0, es, j);
    law_requests_carry_memory(state_after(s0, es, j), es[j]);
    assert(state_after(s0, es, j + 1) == next(state_after(s0, es, j), es[j]).0);
    lemma_held_auth_was_discovered(es, j + 1, a);
}


/// Without credentials, a loop that is not paused and has no command waits
/// ten seconds and then searches for the client again, and keeps what it
/// finds; with credentials it asks the client for its phase with them. So a
/// loop started before the client finds it once it runs.
pub proof fn law_without_credentials_searches_again(s: AcceptorState, found: Option<LcuAuth>)
    requires
        s.stage == Stage::Draining,
        !s.paused,
    ensures
        s.auth is None ==> ({
            let (s1, a1) = next(s, AcceptorEvent::NoCommand);
            let (s2, a2) = next(s1, AcceptorEvent::Slept);
            let (s3, a3) = next(s2, AcceptorEvent::Discovered(found));
            &&& a1 == AcceptorAction::Sleep(10000)
            &&& a2 == AcceptorAction::Discover
            &&& s3.auth == found
            &&& s3.stage == Stage::Draining
            &&& s3.paused == s.paused
            &&& a3 == AcceptorAction::ReceiveCommand
        }),
        s.auth matches Some(a) ==> next(s, AcceptorEvent::NoCommand).1 == AcceptorAction::FetchPhase(a),
{
}

/// Every search for the client, whatever stage awaited it, replaces the
/// credentials with what it found.
pub proof fn law_search_outcome_is_kept(s: AcceptorState, found: Option<LcuAuth>)
    requires
        s.stage == Stage::Starting || s.stage == Stage::Rediscovering || s.stage
            == Stage::DiscoveringForDodge,
    ensures
        next(s, AcceptorEvent::Discovered(found)).0.auth == found,
        next(s, AcceptorEvent::Discovered(found)).0.paused == s.paused,
{
}


/// When a wait ends the loop goes back to reading commands, keeping its
/// memory; only the wait before a new search leads to that search.
pub proof fn law_wait_returns_to_commands(s: AcceptorState, ms: u64)
    ensures
        s.stage == Stage::Resting(ms) ==> next(s, AcceptorEvent::Slept) == (
            AcceptorState { paused: s.paused, auth: s.auth, stage: Stage::Draining },
            AcceptorAction::ReceiveCommand,
        ),
        s.stage == Stage::BackingOff ==> next(s, AcceptorEvent::Slept) == (
            AcceptorState { paused: s.paused, auth: s.auth, stage: Stage::Rediscovering },
            AcceptorAction::Discover,
        ),
{
}

/// An outcome the loop does not await makes it ask again for exactly the
/// request it awaits: the search, the next command, the dodge, phase or
/// accept request with its credentials, the same wait, or to exit.
pub proof fn law_unexpected_event_repeats_request(s: AcceptorState, e: AcceptorEvent, ms: u64)
    requires
        s.wf(),
        !expects(s.stage, e),
    ensures
        next(s, e).0 == s,
        (s.stage == Stage::Starting || s.stage == Stage::DiscoveringForDodge || s.stage
            == Stage::Rediscovering) ==> next(s, e).1 == AcceptorAction::Discover,
        s.stage == Stage::Draining ==> next(s, e).1 == AcceptorAction::ReceiveCommand,
        s.stage == Stage::Dodging ==> next(s, e).1 == AcceptorAction::DodgeLobby(s.auth.unwrap()),
        s.stage == Stage::Polling ==> next(s, e).1 == AcceptorAction::FetchPhase(s.auth.unwrap()),
        s.stage == Stage::Accepting ==> next(s, e).1 == AcceptorAction::AcceptMatch(s.auth.unwrap()),
        s.stage == Stage::Resting(ms) ==> next(s, e).1 == AcceptorAction::Sleep(ms),
        s.stage == Stage::BackingOff ==> next(s, e).1 == AcceptorAction::Sleep(10000),
        s.stage == Stage::Stopped ==> next(s, e).1 == AcceptorAction::Exit,
{
}

} // verus!
