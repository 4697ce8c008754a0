//! The session state machine: what each chunk of streamed server text does
//! to the session — which commands go out, how the state moves forward, and
//! which terminal outcome, if any, ends the run.

use vstd::prelude::*;
use vstd::string::StringExecFns;
use crate::account::opt_view;
use crate::selection::{select_server_index, selected_index_spec};
use crate::text::{HISTORY_LIMIT, History, chars_to_string, chars_vec, contains_pat, contains_seq,
    trimmed};

verus! {

/// Seconds spent in `WaitingProcedure` before the rapid-fire sequence.
pub const PROCEDURE_WAIT_SECS: u64 = 200;

/// Milliseconds between two rapid-fire commands.
pub const RAPID_FIRE_GAP_MS: u64 = 500;

/// Seconds waited after the rapid-fire sequence before the session counts
/// as complete.
pub const POST_RAPID_FIRE_WAIT_SECS: u64 = 120;

/// The session's forward progression. Only `WaitingProcedure` may step back
/// to the two login states, when a resumed run re-triggers the prompts.
#[derive(Clone, Copy, Debug, PartialEq, Eq, Structural)]
pub enum GameState {
    Connected,
    SentLoginCommand,
    SentRestoreCode,
    ServerSelected,
    WaitingProcedure,
    RapidFire,
    Finished,
}

/// The terminal result of one session run, the closed set the retry policy
/// is keyed on.
#[derive(Debug, PartialEq, Eq)]
pub enum Outcome {
    /// The run finished; the account is done.
    SessionComplete,
    /// The service rejected a command; restart the session at once.
    InvalidCommandRestart,
    /// The service reported its Zigza error or a bad restore code.
    ZigzaDetected,
    /// The server reached its limit of restore accounts.
    ServerFull,
    /// The automation credential no longer logs in; nothing further can
    /// succeed.
    LoginRequired,
    /// The connection could not be opened or broke.
    ConnectionFailed,
    /// The stream went silent past its deadline.
    IdleTimeout,
    /// The server closed the session.
    ServerDisconnect,
    /// The opening handshake never finished.
    HandshakeTimeout,
    /// Any other failure, carried with its message.
    Other(String),
}

/// What one chunk of output did: the commands to send, in order, and the
/// terminal outcome when one of the failure phrases arrived.
pub struct StepOut {
    pub commands: Vec<String>,
    pub outcome: Option<Outcome>,
}

/// Mathematical image of one step of the machine.
pub ghost struct StepV {
    pub state: GameState,
    pub history: Seq<char>,
    pub wait_started_at: Option<u64>,
    pub commands: Seq<Seq<char>>,
    pub outcome: Option<Outcome>,
}

/// The transition table, applied to one newly arrived chunk of text.
///
/// The chunk first joins the rolling history. Then, in this order, each rule
/// whose trigger phrase is in the chunk and whose state precondition holds
/// fires, threading the state: the command prompt sends the login command;
/// the restore prompt sends the code; the account-selection prompt parses
/// the selection list out of the whole history and sends the chosen index;
/// the procedure phrases start the long wait. Last, the three failure
/// phrases map to their outcomes, first match winning.
pub open spec fn step_spec(
    state: GameState,
    history: Seq<char>,
    wait_started_at: Option<u64>,
    text: Seq<char>,
    target: Option<Seq<char>>,
    code: Seq<char>,
    now: u64,
) -> StepV {
    let new_history = trimmed(history + text, HISTORY_LIMIT as int);
    let fire_login = contains_seq(text, "Enter Command to use"@) && (state is Connected
        || state is WaitingProcedure);
    let s1 = if fire_login {
        GameState::SentLoginCommand
    } else {
        state
    };
    let c1: Seq<Seq<char>> = if fire_login {
        seq!["d"@]
    } else {
        Seq::empty()
    };
    let fire_restore = contains_seq(text, "Enter Restore code"@) && (s1 is SentLoginCommand
        || s1 is Connected || s1 is WaitingProcedure);
    let s2 = if fire_restore {
        GameState::SentRestoreCode
    } else {
        s1
    };
    let c2 = if fire_restore {
        c1.push(code)
    } else {
        c1
    };
    let fire_select = contains_seq(text, "Which acc u want to Login"@) && (s2 is SentRestoreCode
        || s2 is Connected || s2 is WaitingProcedure);
    let s3 = if fire_select {
        GameState::ServerSelected
    } else {
        s2
    };
    let c3 = if fire_select {
        c2.push(selected_index_spec(new_history, target))
    } else {
        c2
    };
    let fire_wait = (contains_seq(text, "Performing Dailies"@) || contains_seq(text, "Press y"@))
        && !(s3 is WaitingProcedure || s3 is RapidFire || s3 is Finished);
    let s4 = if fire_wait {
        GameState::WaitingProcedure
    } else {
        s3
    };
    let w4 = if fire_wait {
        Option::Some(now)
    } else {
        wait_started_at
    };
    let outcome = if contains_seq(text, "Either Zigza error or Incorrect Restore Code Entered"@) {
        Option::Some(Outcome::ZigzaDetected)
    } else if contains_seq(text, "Server reached maximum limit of restore accounts"@) {
        Option::Some(Outcome::ServerFull)
    } else if contains_seq(text, "Access to start bot is restricted only for logged in users"@) {
        Option::Some(Outcome::LoginRequired)
    } else {
        Option::None
    };
    StepV { state: s4, history: new_history, wait_started_at: w4, commands: c3, outcome }
}

/// One live session's machine state: the progression state, the rolling
/// history, and when the long wait began.
pub struct SessionState {
    pub state: GameState,
    pub history: History,
    pub wait_started_at: Option<u64>,
}

impl SessionState {
    /// The history stays within its bound.
    pub open spec fn wf(&self) -> bool {
        self.history.wf()
    }

    /// A fresh session, as `connect` hands it out: state `Connected`, an
    /// empty history, no wait running.
    pub fn new() -> (s: SessionState)
        ensures
            s.state == GameState::Connected,
            s.history@ == Seq::<char>::empty(),
            s.wait_started_at is None,
            s.wf(),
    {
        SessionState { state: GameState::Connected, history: History::new(), wait_started_at: Option::None }
    }

    /// Applies one chunk of `output` text, at clock second `now`, for an
    /// account with the given target server and restore code.
    pub fn on_output(&mut self, text: &str, target_server: &Option<String>, code: &str, now: u64)
        -> (r: StepOut)
        requires
            old(self).wf(),
        ensures
            final(self).wf(),
            ({
                let sp = step_spec(
                    old(self).state,
                    old(self).history@,
                    old(self).wait_started_at,
                    text@,
                    opt_view(*target_server),
                    code@,
                    now,
                );
                &&& final(self).state == sp.state
                &&& final(self).history@ == sp.history
                &&& final(self).wait_started_at == sp.wait_started_at
                &&& r.commands@.map_values(|c: String| c@) == sp.commands
                &&& r.outcome == sp.outcome
            }),
    {
        let ghost sp = step_spec(
            old(self).state,
            old(self).history@,
            old(self).wait_started_at,
            text@,
            opt_view(*target_server),
            code@,
            now,
        );
        let chunk = chars_vec(text);
        self.history.append(&chunk);
        let mut commands: Vec<String> = Vec::new();
        let mut state = self.state;

        let p_login = chars_vec("Enter Command to use");
        let fire_login = contains_pat(&chunk, &p_login) && (state == GameState::Connected || state
            == GameState::WaitingProcedure);
        if fire_login {
            state = GameState::SentLoginCommand;
            commands.push(String::from_str("d"));
        }

        let p_restore = chars_vec("Enter Restore code");
        let fire_restore = contains_pat(&chunk, &p_restore) && (state
            == GameState::SentLoginCommand || state == GameState::Connected || state
            == GameState::WaitingProcedure);
        if fire_restore {
            state = GameState::SentRestoreCode;
            commands.push(String::from_str(code));
        }

        let p_select = chars_vec("Which acc u want to Login");
        let fire_select = contains_pat(&chunk, &p_select) && (state == GameState::SentRestoreCode
            || state == GameState::Connected || state == GameState::WaitingProcedure);
        if fire_select {
            let idx = select_server_index(self.history.contents(), target_server);
            commands.push(chars_to_string(&idx));
            state = GameState::ServerSelected;
        }

        let p_dailies = chars_vec("Performing Dailies");
        let p_press_y = chars_vec("Press y");
        let fire_wait = (contains_pat(&chunk, &p_dailies) || contains_pat(&chunk, &p_press_y))
            && !(state == GameState::WaitingProcedure || state == GameState::RapidFire || state
            == GameState::Finished);
        if fire_wait {
            state = GameState::WaitingProcedure;
            self.wait_started_at = Option::Some(now);
        }
        self.state = state;

        let p_zigza = chars_vec("Either Zigza error or Incorrect Restore Code Entered");
        let p_full = chars_vec("Server reached maximum limit of restore accounts");
        let p_login_req = chars_vec("Access to start bot is restricted only for logged in users");
        let outcome = if contains_pat(&chunk, &p_zigza) {
            Option::Some(Outcome::ZigzaDetected)
        } else if contains_pat(&chunk, &p_full) {
            Option::Some(Outcome::ServerFull)
        } else if contains_pat(&chunk, &p_login_req) {
            Option::Some(Outcome::LoginRequired)
        } else {
            Option::None
        };
        proof {
            assert(commands@.map_values(|c: String| c@) =~= sp.commands);
        }
        StepOut { commands, outcome }
    }
}

/// Whether the long wait has run its course: the session is in
/// `WaitingProcedure` and at least `PROCEDURE_WAIT_SECS` have passed since
/// the wait began.
pub open spec fn rapid_fire_due_spec(
    state: GameState,
    wait_started_at: Option<u64>,
    now: u64,
) -> bool {
    &&& state is WaitingProcedure
    &&& wait_started_at matches Option::Some(t) && now as int >= t as int
        + PROCEDURE_WAIT_SECS as int
}

/// Decides, at clock second `now`, whether the rapid-fire sequence starts.
pub fn rapid_fire_due(state: GameState, wait_started_at: Option<u64>, now: u64) -> (r: bool)
    ensures
        r == rapid_fire_due_spec(state, wait_started_at, now),
{
    state == GameState::WaitingProcedure && match wait_started_at {
        Option::Some(t) => now >= t && now - t >= PROCEDURE_WAIT_SECS,
        Option::None => false,
    }
}

/// The fixed closing sequence.
pub open spec fn rapid_fire_spec() -> Seq<Seq<char>> {
    seq!["y"@, "auto"@, "exit"@, "exit"@, "exit"@, "exit"@]
}

/// The fixed closing sequence sent once the long wait has run its course.
pub fn rapid_fire_commands() -> (r: Vec<String>)
    ensures
        r@.map_values(|c: String| c@) == rapid_fire_spec(),
{
    let mut r: Vec<String> = Vec::new();
    r.push(String::from_str("y"));
    r.push(String::from_str("auto"));
    r.push(String::from_str("exit"));
    r.push(String::from_str("exit"));
    r.push(String::from_str("exit"));
    r.push(String::from_str("exit"));
    proof {
        assert(r@.map_values(|c: String| c@) =~= rapid_fire_spec());
    }
    r
}

/// The position of a state in the forward progression.
pub open spec fn state_order(s: GameState) -> int {
    match s {
        GameState::Connected => 0,
        GameState::SentLoginCommand => 1,
        GameState::SentRestoreCode => 2,
        GameState::ServerSelected => 3,
        GameState::WaitingProcedure => 4,
        GameState::RapidFire => 5,
        GameState::Finished => 6,
    }
}

/// Law: the machine only moves forward — a step leaves the state where it
/// was or moves it later in the progression — except from the long wait,
/// the one state a resumed session may step back out of when the login
/// prompts come round again.
pub proof fn lemma_forward_progression(
    state: GameState,
    history: Seq<char>,
    wait_started_at: Option<u64>,
    text: Seq<char>,
    target: Option<Seq<char>>,
    code: Seq<char>,
    now: u64,
)
    ensures
        ({
            let b = step_spec(state, history, wait_started_at, text, target, code, now).state;
            b == state || state_order(b) > state_order(state) || state is WaitingProcedure
        }),
{
}

} // verus!
