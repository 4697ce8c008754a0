use evertext_runner::session::{
    GameState, Outcome, SessionState, rapid_fire_commands, rapid_fire_due, PROCEDURE_WAIT_SECS,
};
use evertext_runner::text::History;

#[test]
fn full_session_scenario_without_target_server() {
    let mut s = SessionState::new();
    assert_eq!(s.state, GameState::Connected);
    let code = "RESTORE123".to_string();
    let target: Option<String> = None;
    let mut sent: Vec<String> = Vec::new();

    let r1 = s.on_output("Enter Command to use", &target, &code, 10);
    sent.extend(r1.commands);
    assert_eq!(s.state, GameState::SentLoginCommand);
    assert_eq!(r1.outcome, None);

    let r2 = s.on_output("Enter Restore code", &target, &code, 20);
    sent.extend(r2.commands);
    assert_eq!(s.state, GameState::SentRestoreCode);
    assert_eq!(r2.outcome, None);

    let r3 = s.on_output("Performing Dailies", &target, &code, 30);
    sent.extend(r3.commands);
    assert_eq!(s.state, GameState::WaitingProcedure);
    assert_eq!(s.wait_started_at, Some(30));
    assert_eq!(r3.outcome, None);

    assert!(!rapid_fire_due(s.state, s.wait_started_at, 30 + PROCEDURE_WAIT_SECS - 1));
    assert!(rapid_fire_due(s.state, s.wait_started_at, 30 + PROCEDURE_WAIT_SECS));
    sent.extend(rapid_fire_commands());

    assert_eq!(
        sent,
        vec!["d", "RESTORE123", "y", "auto", "exit", "exit", "exit", "exit"]
            .into_iter()
            .map(str::to_string)
            .collect::<Vec<String>>()
    );

    // The completed run marks the account done.
    let outcome = evertext_runner::session::Outcome::SessionComplete;
    let policy = evertext_runner::queue::policy_for(&outcome);
    let mut db = evertext_runner::store::Database {
        data: evertext_runner::account::DbData {
            accounts: vec![evertext_runner::account::Account {
                name: "acc1".to_string(),
                code: "RESTORE123".to_string(),
                target_server: None,
                user_id: None,
                username: None,
                ping_enabled: false,
                status: "pending".to_string(),
                last_run: None,
            }],
            settings: evertext_runner::account::Settings {
                cookies: Some("credential".to_string()),
                admin_role_id: None,
                log_channel_id: None,
                mute_bot_messages: None,
            },
        },
    };
    db.update_status("acc1", policy.status_update.as_deref().unwrap());
    assert_eq!(db.data.accounts[0].status, "done");
}

#[test]
fn prompts_ignored_in_wrong_state() {
    let mut s = SessionState::new();
    s.state = GameState::ServerSelected;
    let r = s.on_output("Enter Command to use", &None, "c", 0);
    assert!(r.commands.is_empty());
    assert_eq!(s.state, GameState::ServerSelected);
}

#[test]
fn waiting_procedure_reenters_login() {
    let mut s = SessionState::new();
    s.state = GameState::WaitingProcedure;
    let r = s.on_output("Enter Command to use", &None, "c", 0);
    assert_eq!(r.commands, vec!["d".to_string()]);
    assert_eq!(s.state, GameState::SentLoginCommand);
}

#[test]
fn both_prompts_in_one_chunk_cascade() {
    let mut s = SessionState::new();
    let r = s.on_output("Enter Command to use ... Enter Restore code", &None, "secret", 0);
    assert_eq!(r.commands, vec!["d".to_string(), "secret".to_string()]);
    assert_eq!(s.state, GameState::SentRestoreCode);
}

#[test]
fn wait_not_restarted_while_waiting() {
    let mut s = SessionState::new();
    s.state = GameState::WaitingProcedure;
    s.wait_started_at = Some(5);
    let r = s.on_output("Press y", &None, "c", 99);
    assert!(r.commands.is_empty());
    assert_eq!(s.wait_started_at, Some(5));
}

#[test]
fn zigza_phrase_is_terminal() {
    let mut s = SessionState::new();
    let r = s.on_output(
        "Either Zigza error or Incorrect Restore Code Entered",
        &None,
        "c",
        0,
    );
    assert_eq!(r.outcome, Some(Outcome::ZigzaDetected));
}

#[test]
fn server_full_phrase_is_terminal() {
    let mut s = SessionState::new();
    let r = s.on_output("Server reached maximum limit of restore accounts", &None, "c", 0);
    assert_eq!(r.outcome, Some(Outcome::ServerFull));
}

#[test]
fn login_required_phrase_is_terminal() {
    let mut s = SessionState::new();
    let r = s.on_output(
        "Access to start bot is restricted only for logged in users",
        &None,
        "c",
        0,
    );
    assert_eq!(r.outcome, Some(Outcome::LoginRequired));
}

#[test]
fn server_list_split_across_frames_is_seen_in_history() {
    let mut s = SessionState::new();
    s.state = GameState::SentRestoreCode;
    let target = Some("E-15".to_string());
    let r1 = s.on_output("1--> Alice (E-10)\n", &target, "c", 0);
    assert!(r1.commands.is_empty());
    let r2 = s.on_output("2--> Bob (E-15)\nWhich acc u want to Login", &target, "c", 0);
    assert_eq!(r2.commands, vec!["2".to_string()]);
    assert_eq!(s.state, GameState::ServerSelected);
}

#[test]
fn history_stays_within_bound_and_keeps_suffix() {
    let mut h = History::new();
    let chunk: Vec<char> = "x".repeat(700).chars().collect();
    for _ in 0..20 {
        h.append(&chunk);
    }
    assert_eq!(h.contents().len(), 10000);
    let tail: Vec<char> = "the most recent suffix".chars().collect();
    h.append(&tail);
    assert_eq!(h.contents().len(), 10000);
    let kept: String = h.contents()[10000 - tail.len()..].iter().collect();
    assert_eq!(kept, "the most recent suffix");
}

#[test]
fn session_history_is_trimmed_too() {
    let mut s = SessionState::new();
    let big = "y".repeat(6000);
    s.on_output(&big, &None, "c", 0);
    s.on_output(&big, &None, "c", 0);
    assert_eq!(s.history.contents().len(), 10000);
}
