//! The lockfile-based acceptor: the client's lockfile gives the API's port,
//! password and protocol; every few seconds the acceptor looks for the
//! client process, opens a session for it, and accepts a ready check.
use vstd::prelude::*;
use vstd::utf8::encode_utf8;

use crate::text::{same_text, split_char, split_spec, trim_char, trim_matches_spec};

verus! {

/// Name of the client process the acceptor looks for.
pub const GAME_PROCESS_NAME: &'static str = "LeagueClient.exe";

/// Seconds between two rounds of the acceptor.
pub const ROUND_SECONDS: u64 = 3;

/// Phase text used when the phase could not be read.
pub const PHASE_NOT_FOUND: &'static str = "Phase not found";

/// The character of the standard Base64 alphabet (`A`-`Z`, `a`-`z`, `0`-`9`,
/// `+`, `/`) for a value below 64.
pub open spec fn base64_digit(v: int) -> char {
    if v < 26 {
        (65 + v) as char
    } else if v < 52 {
        (97 + v - 26) as char
    } else if v < 62 {
        (48 + v - 52) as char
    } else if v == 62 {
        '+'
    } else {
        '/'
    }
}

/// The standard Base64 encoding of `bytes` with `=` padding: every three
/// bytes become four digits of six bits each, and a last group of one or two
/// bytes is padded to four characters.
pub open spec fn base64_standard(bytes: Seq<u8>) -> Seq<char>
    decreases bytes.len(),
{
    if bytes.len() == 0 {
        Seq::empty()
    } else if bytes.len() == 1 {
        seq![
            base64_digit(bytes[0] as int / 4),
            base64_digit((bytes[0] as int % 4) * 16),
            '=',
            '=',
        ]
    } else if bytes.len() == 2 {
        seq![
            base64_digit(bytes[0] as int / 4),
            base64_digit((bytes[0] as int % 4) * 16 + bytes[1] as int / 16),
            base64_digit((bytes[1] as int % 16) * 4),
            '=',
        ]
    } else {
        seq![
            base64_digit(bytes[0] as int / 4),
            base64_digit((bytes[0] as int % 4) * 16 + bytes[1] as int / 16),
            base64_digit((bytes[1] as int % 16) * 4 + bytes[2] as int / 64),
            base64_digit(bytes[2] as int % 64),
        ] + base64_standard(bytes.skip(3))
    }
}

/// Trusted: `base64::encode`, which encodes with the crate's `STANDARD`
/// engine (standard alphabet, `=` padding). Claimed: the result is
/// `base64_standard` of the bytes.
#[verifier::external_body]
#[allow(deprecated)]
fn encode_base64(bytes: &[u8]) -> (r: String)
    ensures
        r@ == base64_standard(bytes@),
{
    base64::encode(bytes)
}

/// What the lockfile gives: the `Authorization` header value and the API's
/// address.
#[derive(Debug, PartialEq, Eq)]
pub struct LockfileCredentials {
    pub authorization: String,
    pub url: String,
}

/// Why a lockfile was refused.
#[derive(Debug, Clone, Copy, PartialEq, Eq, Structural)]
pub enum LockfileError {
    /// The lockfile does not have the five `:`-separated fields
    /// `name:pid:port:password:protocol`.
    Malformed,
}

impl LockfileError {
    /// The error's message.
    pub fn message(&self) -> (r: String)
        ensures
            r@ == "Could not parse data from lockfile"@,
    {
        String::from_str("Could not parse data from lockfile")
    }
}

/// The `Authorization` header value for the API password: HTTP basic
/// authentication of the user `riot`.
pub open spec fn authorization_for(password: Seq<char>) -> Seq<char> {
    "Basic "@ + base64_standard(encode_utf8("riot:"@ + password))
}

/// The API's address for a protocol and a port on the local machine.
pub open spec fn api_url_for(protocol: Seq<char>, port: Seq<char>) -> Seq<char> {
    protocol + "://"@ + "127.0.0.1"@ + ":"@ + port
}

/// The credentials a lockfile gives: the header for its fourth field and the
/// address for its fifth and third fields, when it has exactly five fields.
pub open spec fn lockfile_credentials(contents: Seq<char>) -> Option<(Seq<char>, Seq<char>)> {
    let fields = split_spec(contents, ':');
    if fields.len() == 5 {
        Some((authorization_for(fields[3]), api_url_for(fields[4], fields[2])))
    } else {
        None
    }
}

/// The login that basic authentication encodes: user `riot` and the password.
pub fn basic_login(password: &str) -> (r: String)
    ensures
        r@ == "riot:"@ + password@,
{
    let mut r = String::from_str("riot:");
    r.append(password);
    r
}

/// The credentials for an already encoded login and the API's protocol and
/// port.
pub fn credentials_from(encoded_login: &str, protocol: &str, port: &str) -> (r: LockfileCredentials)
    ensures
        r.authorization@ == "Basic "@ + encoded_login@,
        r.url@ == api_url_for(protocol@, port@),
{
    let mut authorization = String::from_str("Basic ");
    authorization.append(encoded_login);
    let mut url = String::from_str(protocol);
    url.append("://");
    url.append("127.0.0.1");
    url.append(":");
    url.append(port);
    LockfileCredentials { authorization, url }
}

/// Reads the credentials from the contents of the client's lockfile.
pub fn parse_lockfile(contents: &str) -> (r: Result<LockfileCredentials, LockfileError>)
    ensures
        match r {
            Ok(c) => lockfile_credentials(contents@) == Some((c.authorization@, c.url@)),
            Err(e) => lockfile_credentials(contents@) is None && e == LockfileError::Malformed,
        },
{
    let fields = split_char(contents, ':');
    if fields.len() != 5 {
        return Err(LockfileError::Malformed);
    }
    assert(fields@[3]@ == split_spec(contents@, ':')[3]);
    assert(fields@[4]@ == split_spec(contents@, ':')[4]);
    assert(fields@[2]@ == split_spec(contents@, ':')[2]);
    let login = basic_login(fields[3].as_str());
    let encoded = encode_base64(login.as_str().as_bytes());
    Ok(credentials_from(encoded.as_str(), fields[4].as_str(), fields[2].as_str()))
}

/// A lockfile `name:pid:port:password:protocol`, whose fields hold no `:`,
/// gives the basic-authentication header of user `riot` with exactly that
/// password, and the address `protocol://127.0.0.1:port`.
pub proof fn law_lockfile_credentials_from_fields(
    name: Seq<char>,
    pid: Seq<char>,
    port: Seq<char>,
    password: Seq<char>,
    protocol: Seq<char>,
)
    requires
        !name.contains(':'),
        !pid.contains(':'),
        !port.contains(':'),
        !password.contains(':'),
        !protocol.contains(':'),
    ensures
        lockfile_credentials(
            name + seq![':'] + pid + seq![':'] + port + seq![':'] + password + seq![':'] + protocol,
        ) == Some(
            (
                "Basic "@ + base64_standard(encode_utf8("riot:"@ + password)),
                protocol + "://127.0.0.1:"@ + port,
            ),
        ),
{
    let c = ':';
    let s1 = name;
    let s2 = s1 + seq![c] + pid;
    let s3 = s2 + seq![c] + port;
    let s4 = s3 + seq![c] + password;
    let s5 = s4 + seq![c] + protocol;
    crate::text::lemma_split_without_separator(name, c);
    crate::text::lemma_split_without_separator(pid, c);
    crate::text::lemma_split_without_separator(port, c);
    crate::text::lemma_split_without_separator(password, c);
    crate::text::lemma_split_without_separator(protocol, c);
    crate::text::lemma_split_concat(s1, pid, c);
    crate::text::lemma_split_concat(s2, port, c);
    crate::text::lemma_split_concat(s3, password, c);
    crate::text::lemma_split_concat(s4, protocol, c);
    let f = split_spec(s5, c);
    assert(f =~= seq![name, pid, port, password, protocol]);
    reveal_strlit("://");
    reveal_strlit("127.0.0.1");
    reveal_strlit(":");
    reveal_strlit("://127.0.0.1:");
    assert(protocol + "://"@ + "127.0.0.1"@ + ":"@ + port =~= protocol + "://127.0.0.1:"@ + port);
}

/// Where the lockfile lies in the client's directory `dir`.
pub fn lockfile_path(dir: &str) -> (r: String)
    ensures
        r@ == dir@ + "\\"@ + "lockfile"@,
{
    let mut r = String::from_str(dir);
    r.append("\\");
    r.append("lockfile");
    r
}

/// Where a round of the lockfile acceptor stands: which outcome it awaits.
#[derive(Debug, Clone, Copy, PartialEq, Eq, Structural)]
pub enum RoundStage {
    /// Awaits the two flags set from the tray (terminate, paused).
    ReadingFlags,
    /// Awaits the search for the client process.
    FindingGame,
    /// Awaits the phase text of the open session.
    ReadingPhase,
    /// Awaits the end of the accept request.
    Accepting,
    /// Awaits the attempt to open a session for the process with this id.
    OpeningSession(u32),
    /// Awaits the end of the pause between rounds.
    Sleeping,
    /// The acceptor has ended.
    Stopped,
}

/// What the caller learned by performing the last action.
#[derive(Debug, PartialEq, Eq)]
pub enum RoundEvent {
    /// The flags were read.
    Flags { terminate: bool, paused: bool },
    /// The client process was searched for, with its id if it runs.
    GameFound(Option<u32>),
    /// The phase text was read (see `phase_text`).
    PhaseRead(String),
    /// The accept request ended (its outcome does not matter).
    Accepted,
    /// The attempt to open a session ended; `true` when a session was opened.
    SessionOpened(bool),
    /// The pause between rounds ended.
    Slept,
}

/// What the caller is to do next.
#[derive(Debug, Clone, Copy, PartialEq, Eq, Structural)]
pub enum RoundAction {
    /// Read the terminate and paused flags.
    ReadFlags,
    /// Look for the client process.
    FindGame,
    /// Read the phase text through the open session.
    ReadPhase,
    /// Accept the ready check through the open session.
    AcceptMatch,
    /// Open a session for the client process with this id; keep the old one
    /// if that fails.
    OpenSession(u32),
    /// Wait `ROUND_SECONDS` seconds.
    Sleep,
    /// End the acceptor.
    Exit,
}

/// The lockfile acceptor's memory: the process id of the open session, if
/// any, and the outcome it awaits.
#[derive(Debug, Clone, Copy, PartialEq, Eq, Structural)]
pub struct RoundState {
    pub session_pid: Option<u32>,
    pub stage: RoundStage,
}

impl RoundState {
    /// The same memory with another stage.
    pub open spec fn at(self, stage: RoundStage) -> RoundState {
        RoundState { session_pid: self.session_pid, stage }
    }
}

/// The action that the stage awaits the outcome of.
pub open spec fn round_pending(s: RoundState) -> RoundAction {
    match s.stage {
        RoundStage::ReadingFlags => RoundAction::ReadFlags,
        RoundStage::FindingGame => RoundAction::FindGame,
        RoundStage::ReadingPhase => RoundAction::ReadPhase,
        RoundStage::Accepting => RoundAction::AcceptMatch,
        RoundStage::OpeningSession(pid) => RoundAction::OpenSession(pid),
        RoundStage::Sleeping => RoundAction::Sleep,
        RoundStage::Stopped => RoundAction::Exit,
    }
}

/// One transition of the lockfile acceptor. A round reads the flags: it ends
/// when asked to, and only waits while paused. Otherwise it looks for the
/// client process: with none it waits; when the open session belongs to the
/// process it reads the phase and accepts on `ReadyCheck`; else it tries to
/// open a session for the process, and keeps the old one if that fails. Every
/// round ends with a wait. An outcome the stage does not await changes
/// nothing and the awaited action is asked for again.
pub open spec fn round_next(s: RoundState, e: RoundEvent) -> (RoundState, RoundAction) {
    match (s.stage, e) {
        (RoundStage::ReadingFlags, RoundEvent::Flags { terminate, paused }) => if terminate {
            (s.at(RoundStage::Stopped), RoundAction::Exit)
        } else if paused {
            (s.at(RoundStage::Sleeping), RoundAction::Sleep)
        } else {
            (s.at(RoundStage::FindingGame), RoundAction::FindGame)
        },
        (RoundStage::FindingGame, RoundEvent::GameFound(found)) => match found {
            None => (s.at(RoundStage::Sleeping), RoundAction::Sleep),
            Some(pid) => if s.session_pid == Some(pid) {
                (s.at(RoundStage::ReadingPhase), RoundAction::ReadPhase)
            } else {
                (s.at(RoundStage::OpeningSession(pid)), RoundAction::OpenSession(pid))
            },
        },
        (RoundStage::ReadingPhase, RoundEvent::PhaseRead(text)) => if text@ == "ReadyCheck"@ {
            (s.at(RoundStage::Accepting), RoundAction::AcceptMatch)
        } else {
            (s.at(RoundStage::Sleeping), RoundAction::Sleep)
        },
        (RoundStage::Accepting, RoundEvent::Accepted) => (s.at(RoundStage::Sleeping), RoundAction::Sleep),
        (RoundStage::OpeningSession(pid), RoundEvent::SessionOpened(opened)) => (
            RoundState {
                session_pid: if opened { Some(pid) } else { s.session_pid },
                stage: RoundStage::Sleeping,
            },
            RoundAction::Sleep,
        ),
        (RoundStage::Sleeping, RoundEvent::Slept) => (s.at(RoundStage::ReadingFlags), RoundAction::ReadFlags),
        _ => (s, round_pending(s)),
    }
}

impl RoundState {
    /// The acceptor's first state and action: no session, read the flags.
    pub fn start() -> (r: (RoundState, RoundAction))
        ensures
            r == (round_initial(), RoundAction::ReadFlags),
    {
        (RoundState { session_pid: None, stage: RoundStage::ReadingFlags }, RoundAction::ReadFlags)
    }

    /// One transition of the lockfile acceptor (see `round_next`).
    pub fn step(self, event: RoundEvent) -> (r: (RoundState, RoundAction))
        ensures
            r == round_next(self, event),
    {
        let session_pid = self.session_pid;
        match (self.stage, event) {
            (RoundStage::ReadingFlags, RoundEvent::Flags { terminate, paused }) => if terminate {
                (RoundState { session_pid, stage: RoundStage::Stopped }, RoundAction::Exit)
            } else if paused {
                (RoundState { session_pid, stage: RoundStage::Sleeping }, RoundAction::Sleep)
            } else {
                (RoundState { session_pid, stage: RoundStage::FindingGame }, RoundAction::FindGame)
            },
            (RoundStage::FindingGame, RoundEvent::GameFound(found)) => match found {
                None => (RoundState { session_pid, stage: RoundStage::Sleeping }, RoundAction::Sleep),
                Some(pid) => {
                    let same = match session_pid {
                        Some(sid) => sid == pid,
                        None => false,
                    };
                    if same {
                        (RoundState { session_pid, stage: RoundStage::ReadingPhase }, RoundAction::ReadPhase)
                    } else {
                        (
                            RoundState { session_pid, stage: RoundStage::OpeningSession(pid) },
                            RoundAction::OpenSession(pid),
                        )
                    }
                },
            },
            (RoundStage::ReadingPhase, RoundEvent::PhaseRead(text)) => if is_ready_check(text.as_str()) {
                (RoundState { session_pid, stage: RoundStage::Accepting }, RoundAction::AcceptMatch)
            } else {
                (RoundState { session_pid, stage: RoundStage::Sleeping }, RoundAction::Sleep)
            },
            (RoundStage::Accepting, RoundEvent::Accepted) => (
                RoundState { session_pid, stage: RoundStage::Sleeping },
                RoundAction::Sleep,
            ),
            (RoundStage::OpeningSession(pid), RoundEvent::SessionOpened(opened)) => (
                RoundState {
                    session_pid: if opened { Some(pid) } else { session_pid },
                    stage: RoundStage::Sleeping,
                },
                RoundAction::Sleep,
            ),
            (RoundStage::Sleeping, RoundEvent::Slept) => (
                RoundState { session_pid, stage: RoundStage::ReadingFlags },
                RoundAction::ReadFlags,
            ),
            (stage, _) => {
                let action = match stage {
                    RoundStage::ReadingFlags => RoundAction::ReadFlags,
                    RoundStage::FindingGame => RoundAction::FindGame,
                    RoundStage::ReadingPhase => RoundAction::ReadPhase,
                    RoundStage::Accepting => RoundAction::AcceptMatch,
                    RoundStage::OpeningSession(pid) => RoundAction::OpenSession(pid),
                    RoundStage::Sleeping => RoundAction::Sleep,
                    RoundStage::Stopped => RoundAction::Exit,
                };
                (self, action)
            },
        }
    }
}

/// A match is accepted only right after the phase text read through the open
/// session was `ReadyCheck` (or when that accept request is asked for again).
pub proof fn law_round_accepts_only_on_ready_check(s: RoundState, e: RoundEvent)
    ensures
        round_next(s, e).1 == RoundAction::AcceptMatch ==> s.stage == RoundStage::Accepting || (
        s.stage == RoundStage::ReadingPhase && (e matches RoundEvent::PhaseRead(t) && t@
            == "ReadyCheck"@)),
{
}

/// The phase is read only through a session opened for the running client
/// process (or when that read is asked for again).
pub proof fn law_round_reads_phase_of_running_game(s: RoundState, e: RoundEvent)
    ensures
        round_next(s, e).1 == RoundAction::ReadPhase ==> s.stage == RoundStage::ReadingPhase || (
        s.stage == RoundStage::FindingGame && (e matches RoundEvent::GameFound(Some(pid))
            && s.session_pid == Some(pid))),
{
}

/// The session is replaced only when a new one was opened, and then by the
/// one for the process it was opened for.
pub proof fn law_round_session_replaced_only_when_opened(s: RoundState, e: RoundEvent)
    ensures
        round_next(s, e).0.session_pid != s.session_pid ==> (s.stage matches RoundStage::OpeningSession(
            pid,
        ) && e == RoundEvent::SessionOpened(true) && round_next(s, e).0.session_pid == Some(pid)),
{
}

/// Asked to end, the acceptor ends; paused, it only waits; ended, it stays
/// ended.
pub proof fn law_round_flags(s: RoundState, paused: bool, e: RoundEvent)
    requires
        s.stage == RoundStage::ReadingFlags,
    ensures
        round_next(s, RoundEvent::Flags { terminate: true, paused }).1 == RoundAction::Exit,
        round_next(s, RoundEvent::Flags { terminate: false, paused: true }) == (
            s.at(RoundStage::Sleeping),
            RoundAction::Sleep,
        ),
        round_next(s.at(RoundStage::Stopped), e) == (s.at(RoundStage::Stopped), RoundAction::Exit),
{
}

/// Every round ends with a wait before the flags are read again.
pub proof fn law_round_waits_between_rounds(s: RoundState, e: RoundEvent)
    ensures
        round_next(s, e).1 == RoundAction::ReadFlags ==> s.stage == RoundStage::ReadingFlags
            || s.stage == RoundStage::Sleeping,
{
}

/// The phase text of a gameflow-phase response: the body without its
/// surrounding quotes, or `PHASE_NOT_FOUND` when there is no body.
pub open spec fn phase_text_spec(body: Option<Seq<char>>) -> Seq<char> {
    match body {
        Some(b) => trim_matches_spec(b, '"'),
        None => PHASE_NOT_FOUND@,
    }
}

/// The phase text for an optional response body.
pub fn phase_text(body: Option<&str>) -> (r: String)
    ensures
        r@ == phase_text_spec(match body {
            Some(b) => Some(b@),
            None => None,
        }),
{
    match body {
        Some(b) => trim_char(b, '"'),
        None => String::from_str(PHASE_NOT_FOUND),
    }
}

/// Whether the phase text names a ready check.
pub fn is_ready_check(phase: &str) -> (r: bool)
    ensures
        r == (phase@ == "ReadyCheck"@),
{
    same_text(phase, "ReadyCheck")
}

/// A lockfile is accepted exactly when it has five fields, and then the
/// address uses its protocol and port on the local machine.
pub proof fn law_lockfile_fields(contents: Seq<char>)
    ensures
        (lockfile_credentials(contents) is Some) == (split_spec(contents, ':').len() == 5),
        lockfile_credentials(contents) matches Some(c) ==> c.1 == split_spec(contents, ':')[4]
            + "://127.0.0.1:"@ + split_spec(contents, ':')[2],
{
    reveal_strlit("://");
    reveal_strlit("127.0.0.1");
    reveal_strlit(":");
    reveal_strlit("://127.0.0.1:");
    let f = split_spec(contents, ':');
    if f.len() == 5 {
        assert(f[4] + "://"@ + "127.0.0.1"@ + ":"@ + f[2] =~= f[4] + "://127.0.0.1:"@ + f[2]);
    }
}


/// The lockfile acceptor's memory after the first `n` outcomes of `es`,
/// starting in `s`.
pub open spec fn round_state_after(s: RoundState, es: Seq<RoundEvent>, n: int) -> RoundState
    decreases n,
{
    if n <= 0 {
        s
    } else {
        round_next(round_state_after(s, es, n - 1), es[n - 1]).0
    }
}

/// The action the lockfile acceptor asks for in reply to the outcome `es[n]`.
pub open spec fn round_action_after(s: RoundState, es: Seq<RoundEvent>, n: int) -> RoundAction {
    round_next(round_state_after(s, es, n), es[n]).1
}

/// The state the lockfile acceptor starts in.
pub open spec fn round_initial() -> RoundState {
    RoundState { session_pid: None, stage: RoundStage::ReadingFlags }
}

/// The flags said: neither end nor pause.
pub open spec fn flags_clear(e: RoundEvent) -> bool {
    e == RoundEvent::Flags { terminate: false, paused: false }
}

/// The phase text read was `ReadyCheck`.
pub open spec fn reads_ready_check(e: RoundEvent) -> bool {
    e matches RoundEvent::PhaseRead(t) && t@ == "ReadyCheck"@
}

/// From the start, the stage after each of the outcomes `lo + 1 ..= hi` is `st`.
pub open spec fn stage_during(es: Seq<RoundEvent>, lo: int, hi: int, st: RoundStage) -> bool {
    forall|k: int| lo < k <= hi ==> (#[trigger] round_state_after(round_initial(), es, k)).stage == st
}

/// From the start, the session belongs to process `p` before each of the
/// outcomes `lo ..= hi`.
pub open spec fn session_during(es: Seq<RoundEvent>, lo: int, hi: int, p: u32) -> bool {
    forall|k: int| lo <= k <= hi ==> (#[trigger] round_state_after(round_initial(), es, k)).session_pid == Some(p)
}

/// Since outcome `i1` (clear flags) the round has been looking for the game.
pub open spec fn looking_since(es: Seq<RoundEvent>, i1: int, n: int) -> bool {
    &&& 0 <= i1 < n
    &&& flags_clear(es[i1])
    &&& stage_during(es, i1, n, RoundStage::FindingGame)
}

/// The round read clear flags at `i1`, then only looked for the game until
/// outcome `i2` found process `p`, whose session was open; since then it has
/// been reading the phase through that session.
pub open spec fn reading_since(es: Seq<RoundEvent>, i1: int, i2: int, p: u32, n: int) -> bool {
    &&& 0 <= i1 < i2 < n
    &&& flags_clear(es[i1])
    &&& stage_during(es, i1, i2, RoundStage::FindingGame)
    &&& es[i2] == RoundEvent::GameFound(Some(p))
    &&& session_during(es, i2, n, p)
    &&& stage_during(es, i2, n, RoundStage::ReadingPhase)
}

/// As `reading_since`, and the phase text read at outcome `i3` was
/// `ReadyCheck`; since then the round has been accepting.
pub open spec fn accepting_since(es: Seq<RoundEvent>, i1: int, i2: int, i3: int, p: u32, n: int) -> bool {
    &&& 0 <= i1 < i2 < i3 < n
    &&& flags_clear(es[i1])
    &&& stage_during(es, i1, i2, RoundStage::FindingGame)
    &&& es[i2] == RoundEvent::GameFound(Some(p))
    &&& session_during(es, i2, n, p)
    &&& stage_during(es, i2, i3, RoundStage::ReadingPhase)
    &&& reads_ready_check(es[i3])
    &&& stage_during(es, i3, n, RoundStage::Accepting)
}

/// What the round has seen, by the stage it is in.
proof fn lemma_round_history(es: Seq<RoundEvent>, n: int)
    requires
        0 <= n <= es.len(),
    ensures
        round_state_after(round_initial(), es, n).stage == RoundStage::FindingGame ==> exists|i1: int|
            #[trigger] looking_since(es, i1, n),
        round_state_after(round_initial(), es, n).stage == RoundStage::ReadingPhase ==> exists|
            i1: int,
            i2: int,
            p: u32,
        | #[trigger] reading_since(es, i1, i2, p, n),
        round_state_after(round_initial(), es, n).stage == RoundStage::Accepting ==> exists|
            i1: int,
            i2: int,
            i3: int,
            p: u32,
        | #[trigger] accepting_since(es, i1, i2, i3, p, n),
    decreases n,
{
    if n > 0 {
        lemma_round_history(es, n - 1);
        let prev = round_state_after(round_initial(), es, n - 1);
        let e = es[n - 1];
        let cur = round_state_after(round_initial(), es, n);
        assert(cur == round_next(prev, e).0);
        if cur.stage == RoundStage::FindingGame {
            if prev.stage == RoundStage::FindingGame {
                let i1 = choose|i1: int| #[trigger] looking_since(es, i1, n - 1);
                assert(looking_since(es, i1, n));
            } else {
                assert(prev.stage == RoundStage::ReadingFlags && flags_clear(e));
                assert(looking_since(es, n - 1, n));
            }
        } else if cur.stage == RoundStage::ReadingPhase {
            if prev.stage == RoundStage::ReadingPhase {
                let (i1, i2, p) = choose|i1: int, i2: int, p: u32| #[trigger] reading_since(es, i1, i2, p, n - 1);
                assert(cur.session_pid == prev.session_pid);
                assert(reading_since(es, i1, i2, p, n));
            } else {
                assert(prev.stage == RoundStage::FindingGame);
                let p = e->GameFound_0->0;
                assert(e == RoundEvent::GameFound(Some(p)) && prev.session_pid == Some(p));
                let i1 = choose|i1: int| #[trigger] looking_since(es, i1, n - 1);
                assert(session_during(es, n - 1, n, p));
                assert(reading_since(es, i1, n - 1, p, n));
            }
        } else if cur.stage == RoundStage::Accepting {
            if prev.stage == RoundStage::Accepting {
                let (i1, i2, i3, p) = choose|i1: int, i2: int, i3: int, p: u32|
                    #[trigger] accepting_since(es, i1, i2, i3, p, n - 1);
                assert(cur.session_pid == prev.session_pid);
                assert(accepting_since(es, i1, i2, i3, p, n));
            } else {
                assert(prev.stage == RoundStage::ReadingPhase && reads_ready_check(e));
                let (i1, i2, p) = choose|i1: int, i2: int, p: u32| #[trigger] reading_since(es, i1, i2, p, n - 1);
                assert(cur.session_pid == prev.session_pid);
                assert(accepting_since(es, i1, i2, n - 1, p, n));
            }
        }
    }
}

/// From the start, outcomes `i1 < i2 < i3 <= j` make one full round: the
/// flags said neither end nor pause at `i1`; only the search for the game was
/// awaited until `i2` found process `p`, whose session was the open one; only
/// the phase was awaited until the text read at `i3` was `ReadyCheck`.
pub open spec fn full_round(es: Seq<RoundEvent>, i1: int, i2: int, i3: int, p: u32, j: int) -> bool {
    &&& 0 <= i1 < i2 < i3 <= j
    &&& flags_clear(es[i1])
    &&& stage_during(es, i1, i2, RoundStage::FindingGame)
    &&& es[i2] == RoundEvent::GameFound(Some(p))
    &&& round_state_after(round_initial(), es, i2).session_pid == Some(p)
    &&& stage_during(es, i2, i3, RoundStage::ReadingPhase)
    &&& reads_ready_check(es[i3])
}

/// From the start, the lockfile acceptor sends an accept request only at the
/// end of one round in which, in this order and with nothing else in between:
/// the flags said neither end nor pause; the search found the client process
/// `p`, and the open session was the one for `p`; the phase text read through
/// it was `ReadyCheck`.
pub proof fn law_round_run_accepts_only_in_a_full_round(es: Seq<RoundEvent>, j: int)
    requires
        0 <= j < es.len(),
        round_action_after(round_initial(), es, j) == RoundAction::AcceptMatch,
    ensures
        exists|i1: int, i2: int, i3: int, p: u32| #[trigger] full_round(es, i1, i2, i3, p, j),
{
    let s0 = round_initial();
    assert(round_state_after(s0, es, j + 1) == round_next(round_state_after(s0, es, j), es[j]).0);
    lemma_round_history(es, j + 1);
    let (i1, i2, i3, p) = choose|i1: int, i2: int, i3: int, p: u32|
        #[trigger] accepting_since(es, i1, i2, i3, p, j + 1);
    assert(round_state_after(s0, es, i2).session_pid == Some(p));
    assert(full_round(es, i1, i2, i3, p, j));
}


/// Each outcome of a round: the flags end, pause or continue the round; a
/// found process is read through the open session if it is that process's,
/// else a session is opened for it; `ReadyCheck` is accepted and any other
/// phase text waits; a session that was opened replaces the old one whatever
/// it was, and a failed attempt keeps the old one.
pub proof fn law_round_transitions(s: RoundState, pid: u32, text: String, paused: bool)
    ensures
        s.stage == RoundStage::ReadingFlags ==> {
            &&& round_next(s, RoundEvent::Flags { terminate: true, paused }).1 == RoundAction::Exit
            &&& round_next(s, RoundEvent::Flags { terminate: false, paused: true }).1 == RoundAction::Sleep
            &&& round_next(s, RoundEvent::Flags { terminate: false, paused: false }).1 == RoundAction::FindGame
        },
        s.stage == RoundStage::FindingGame ==> {
            &&& round_next(s, RoundEvent::GameFound(None)).1 == RoundAction::Sleep
            &&& round_next(s, RoundEvent::GameFound(Some(pid))).1 == (if s.session_pid == Some(pid) {
                RoundAction::ReadPhase
            } else {
                RoundAction::OpenSession(pid)
            })
        },
        s.stage == RoundStage::ReadingPhase ==> round_next(s, RoundEvent::PhaseRead(text)).1 == (if text@
            == "ReadyCheck"@ {
            RoundAction::AcceptMatch
        } else {
            RoundAction::Sleep
        }),
        s.stage == RoundStage::OpeningSession(pid) ==> {
            &&& round_next(s, RoundEvent::SessionOpened(true)).0.session_pid == Some(pid)
            &&& round_next(s, RoundEvent::SessionOpened(false)).0.session_pid == s.session_pid
            &&& round_next(s, RoundEvent::SessionOpened(true)).1 == RoundAction::Sleep
            &&& round_next(s, RoundEvent::SessionOpened(false)).1 == RoundAction::Sleep
        },
        s.stage == RoundStage::Sleeping ==> round_next(s, RoundEvent::Slept).1 == RoundAction::ReadFlags,
        s.stage == RoundStage::Accepting ==> round_next(s, RoundEvent::Accepted).1 == RoundAction::Sleep,
{
}

/// After a new session is opened for a restarted client, the next full round
/// reads the phase through it and accepts a ready check.
pub proof fn law_round_after_restart_accepts(old: Option<u32>, pid: u32, text: String)
    requires
        text@ == "ReadyCheck"@,
    ensures
        ({
            let s0 = RoundState { session_pid: old, stage: RoundStage::OpeningSession(pid) };
            let (s1, _) = round_next(s0, RoundEvent::SessionOpened(true));
            let (s2, _) = round_next(s1, RoundEvent::Slept);
            let (s3, _) = round_next(s2, RoundEvent::Flags { terminate: false, paused: false });
            let (s4, a4) = round_next(s3, RoundEvent::GameFound(Some(pid)));
            let (_, a5) = round_next(s4, RoundEvent::PhaseRead(text));
            &&& a4 == RoundAction::ReadPhase
            &&& a5 == RoundAction::AcceptMatch
        }),
{
}

} // verus!
