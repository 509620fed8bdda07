//! The League Client's gameflow phases and the endpoints the acceptor uses.
use vstd::prelude::*;

use crate::text::{same_text, trim_char, trim_matches_spec, lemma_trim_matches_idempotent, lemma_trim_matches_wrapped};

verus! {

/// Phase of the client's gameflow, as reported by
/// `/lol-gameflow/v1/gameflow-phase`. `Idle` is the phase the client
/// reports as `"None"`.
#[derive(Debug, Clone, Copy, PartialEq, Eq, Structural)]
pub enum GameflowPhase {
    Idle,
    Lobby,
    Matchmaking,
    ReadyCheck,
    ChampSelect,
    InProgress,
    Reconnect,
    WaitingForStats,
    PreEndOfGame,
    EndOfGame,
    Unknown,
}

/// The phase named by `name` exactly, `Unknown` for any other text.
pub open spec fn phase_named(name: Seq<char>) -> GameflowPhase {
    if name == "None"@ {
        GameflowPhase::Idle
    } else if name == "Lobby"@ {
        GameflowPhase::Lobby
    } else if name == "Matchmaking"@ {
        GameflowPhase::Matchmaking
    } else if name == "ReadyCheck"@ {
        GameflowPhase::ReadyCheck
    } else if name == "ChampSelect"@ {
        GameflowPhase::ChampSelect
    } else if name == "InProgress"@ {
        GameflowPhase::InProgress
    } else if name == "Reconnect"@ {
        GameflowPhase::Reconnect
    } else if name == "WaitingForStats"@ {
        GameflowPhase::WaitingForStats
    } else if name == "PreEndOfGame"@ {
        GameflowPhase::PreEndOfGame
    } else if name == "EndOfGame"@ {
        GameflowPhase::EndOfGame
    } else {
        GameflowPhase::Unknown
    }
}

/// The phase a response body denotes: the body is a JSON string, so the
/// quotes around it are dropped before the name is read.
pub open spec fn phase_of_response(body: Seq<char>) -> GameflowPhase {
    phase_named(trim_matches_spec(body, '"'))
}

impl GameflowPhase {
    /// Reads the phase from the body of a gameflow-phase response.
    pub fn from_lcu_response(value: &str) -> (r: Self)
        ensures
            r == phase_of_response(value@),
    {
        let name = trim_char(value, '"');
        let name = name.as_str();
        if same_text(name, "None") {
            GameflowPhase::Idle
        } else if same_text(name, "Lobby") {
            GameflowPhase::Lobby
        } else if same_text(name, "Matchmaking") {
            GameflowPhase::Matchmaking
        } else if same_text(name, "ReadyCheck") {
            GameflowPhase::ReadyCheck
        } else if same_text(name, "ChampSelect") {
            GameflowPhase::ChampSelect
        } else if same_text(name, "InProgress") {
            GameflowPhase::InProgress
        } else if same_text(name, "Reconnect") {
            GameflowPhase::Reconnect
        } else if same_text(name, "WaitingForStats") {
            GameflowPhase::WaitingForStats
        } else if same_text(name, "PreEndOfGame") {
            GameflowPhase::PreEndOfGame
        } else if same_text(name, "EndOfGame") {
            GameflowPhase::EndOfGame
        } else {
            GameflowPhase::Unknown
        }
    }
}

/// The name the client uses for a phase (`Idle` is reported as `"None"`).
pub open spec fn phase_name(p: GameflowPhase) -> Seq<char> {
    match p {
        GameflowPhase::Idle => "None"@,
        GameflowPhase::Lobby => "Lobby"@,
        GameflowPhase::Matchmaking => "Matchmaking"@,
        GameflowPhase::ReadyCheck => "ReadyCheck"@,
        GameflowPhase::ChampSelect => "ChampSelect"@,
        GameflowPhase::InProgress => "InProgress"@,
        GameflowPhase::Reconnect => "Reconnect"@,
        GameflowPhase::WaitingForStats => "WaitingForStats"@,
        GameflowPhase::PreEndOfGame => "PreEndOfGame"@,
        GameflowPhase::EndOfGame => "EndOfGame"@,
        GameflowPhase::Unknown => "Unknown"@,
    }
}

impl GameflowPhase {
    /// The name the client uses for this phase.
    pub fn lcu_name(&self) -> (r: &'static str)
        ensures
            r@ == phase_name(*self),
    {
        match self {
            GameflowPhase::Idle => "None",
            GameflowPhase::Lobby => "Lobby",
            GameflowPhase::Matchmaking => "Matchmaking",
            GameflowPhase::ReadyCheck => "ReadyCheck",
            GameflowPhase::ChampSelect => "ChampSelect",
            GameflowPhase::InProgress => "InProgress",
            GameflowPhase::Reconnect => "Reconnect",
            GameflowPhase::WaitingForStats => "WaitingForStats",
            GameflowPhase::PreEndOfGame => "PreEndOfGame",
            GameflowPhase::EndOfGame => "EndOfGame",
            GameflowPhase::Unknown => "Unknown",
        }
    }
}

/// Every phase's name, bare or quoted as the client sends it, is read back
/// as that phase.
pub proof fn law_phase_name_round_trip(p: GameflowPhase)
    ensures
        phase_named(phase_name(p)) == p,
        phase_of_response(phase_name(p)) == p,
        phase_of_response(seq!['"'] + phase_name(p) + seq!['"']) == p,
{
    reveal_strlit("None");
    reveal_strlit("Lobby");
    reveal_strlit("Matchmaking");
    reveal_strlit("ReadyCheck");
    reveal_strlit("ChampSelect");
    reveal_strlit("InProgress");
    reveal_strlit("Reconnect");
    reveal_strlit("WaitingForStats");
    reveal_strlit("PreEndOfGame");
    reveal_strlit("EndOfGame");
    reveal_strlit("Unknown");
    let n = phase_name(p);
    assert(n.len() > 0 && n[0] != '"' && n.last() != '"');
    crate::text::lemma_trim_start_at(n, '"', 0);
    assert(n.skip(0) =~= n);
    crate::text::lemma_trim_end_at(n, '"', n.len() as int);
    assert(n.take(n.len() as int) =~= n);
    lemma_trim_matches_wrapped(n, '"');
}

/// Each phase is read from exactly one name, and every other text is
/// `Unknown`.
pub proof fn law_phase_named_exactly(name: Seq<char>)
    ensures
        (phase_named(name) == GameflowPhase::Idle) == (name == "None"@),
        (phase_named(name) == GameflowPhase::Lobby) == (name == "Lobby"@),
        (phase_named(name) == GameflowPhase::Matchmaking) == (name == "Matchmaking"@),
        (phase_named(name) == GameflowPhase::ReadyCheck) == (name == "ReadyCheck"@),
        (phase_named(name) == GameflowPhase::ChampSelect) == (name == "ChampSelect"@),
        (phase_named(name) == GameflowPhase::InProgress) == (name == "InProgress"@),
        (phase_named(name) == GameflowPhase::Reconnect) == (name == "Reconnect"@),
        (phase_named(name) == GameflowPhase::WaitingForStats) == (name == "WaitingForStats"@),
        (phase_named(name) == GameflowPhase::PreEndOfGame) == (name == "PreEndOfGame"@),
        (phase_named(name) == GameflowPhase::EndOfGame) == (name == "EndOfGame"@),
{
    reveal_strlit("None");
    reveal_strlit("Lobby");
    reveal_strlit("Matchmaking");
    reveal_strlit("ReadyCheck");
    reveal_strlit("ChampSelect");
    reveal_strlit("InProgress");
    reveal_strlit("Reconnect");
    reveal_strlit("WaitingForStats");
    reveal_strlit("PreEndOfGame");
    reveal_strlit("EndOfGame");
    assert("None"@.len() == 4 && "None"@[0] == 'N');
    assert("Lobby"@.len() == 5 && "Lobby"@[0] == 'L');
    assert("Matchmaking"@.len() == 11 && "Matchmaking"@[0] == 'M');
    assert("ReadyCheck"@.len() == 10 && "ReadyCheck"@[0] == 'R');
    assert("ChampSelect"@.len() == 11 && "ChampSelect"@[0] == 'C');
    assert("InProgress"@.len() == 10 && "InProgress"@[0] == 'I');
    assert("Reconnect"@.len() == 9 && "Reconnect"@[0] == 'R');
    assert("WaitingForStats"@.len() == 15 && "WaitingForStats"@[0] == 'W');
    assert("PreEndOfGame"@.len() == 12 && "PreEndOfGame"@[0] == 'P');
    assert("EndOfGame"@.len() == 9 && "EndOfGame"@[0] == 'E');
}

/// A body and the same body with its surrounding quotes already removed
/// denote the same phase.
pub proof fn law_phase_ignores_trimmed_quotes(body: Seq<char>)
    ensures
        phase_of_response(trim_matches_spec(body, '"')) == phase_of_response(body),
{
    lemma_trim_matches_idempotent(body, '"');
}

/// Quoting a body once more does not change the phase it denotes.
pub proof fn law_phase_ignores_extra_quotes(body: Seq<char>)
    ensures
        phase_of_response(seq!['"'] + body + seq!['"']) == phase_of_response(body),
{
    lemma_trim_matches_wrapped(body, '"');
}

/// Path of the endpoint that reports the gameflow phase.
pub open spec fn gameflow_phase_path() -> Seq<char> {
    "/lol-gameflow/v1/gameflow-phase"@
}

/// Path of the endpoint that accepts a ready check.
pub open spec fn ready_check_accept_path() -> Seq<char> {
    "/lol-matchmaking/v1/ready-check/accept"@
}

/// URL that reports the gameflow phase of the client at `base_url`.
pub fn gameflow_phase_url(base_url: &str) -> (r: String)
    ensures
        r@ == base_url@ + gameflow_phase_path(),
{
    let mut r = String::from_str(base_url);
    r.append("/lol-gameflow/v1/gameflow-phase");
    r
}

/// URL that accepts the ready check on the client at `base_url`.
pub fn ready_check_accept_url(base_url: &str) -> (r: String)
    ensures
        r@ == base_url@ + ready_check_accept_path(),
{
    let mut r = String::from_str(base_url);
    r.append("/lol-matchmaking/v1/ready-check/accept");
    r
}


/// Path of the call that leaves the current lobby or champion select: the
/// client's session call for the `teambuilder-draft` `quitV2` method. This
/// endpoint is a choice of this crate; the client documents no dedicated
/// lobby-dodge call.
pub open spec fn lobby_dodge_path() -> Seq<char> {
    "/lol-login/v1/session/invoke?destination=lcdsServiceProxy&method=call&args=[\"\",\"teambuilder-draft\",\"quitV2\",\"\"]"@
}

/// URL that makes the client at `base_url` leave its lobby.
pub fn lobby_dodge_url(base_url: &str) -> (r: String)
    ensures
        r@ == base_url@ + lobby_dodge_path(),
{
    let mut r = String::from_str(base_url);
    r.append("/lol-login/v1/session/invoke?destination=lcdsServiceProxy&method=call&args=[\"\",\"teambuilder-draft\",\"quitV2\",\"\"]");
    r
}

} // verus!
