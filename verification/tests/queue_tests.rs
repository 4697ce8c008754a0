use evertext_runner::account::{Account, DbData, Settings};
use evertext_runner::queue::{
    DrainStep, Gate, plan_drain_step, policy_for, select_next, single_run_status,
};
use evertext_runner::session::Outcome;
use evertext_runner::store::Database;

fn account(name: &str, status: &str, user_id: Option<&str>) -> Account {
    Account {
        name: name.to_string(),
        code: String::new(),
        target_server: None,
        user_id: user_id.map(str::to_string),
        username: None,
        ping_enabled: false,
        status: status.to_string(),
        last_run: None,
    }
}

#[test]
fn done_accounts_are_never_selected() {
    let accounts = vec![account("a", "done", None), account("b", "done", None)];
    assert_eq!(select_next(&accounts, &None), None);
}

#[test]
fn fresh_accounts_go_before_retrying_ones() {
    let accounts = vec![
        account("a", "error: boom", None),
        account("b", "done", None),
        account("c", "pending", None),
    ];
    assert_eq!(select_next(&accounts, &None), Some(2));
}

#[test]
fn retrying_account_selected_when_no_fresh_left() {
    let accounts = vec![
        account("a", "done", None),
        account("b", "error: boom", None),
        account("c", "error: later", None),
    ];
    assert_eq!(select_next(&accounts, &None), Some(1));
}

#[test]
fn owner_filter_narrows_selection() {
    let accounts = vec![
        account("a", "pending", Some("u1")),
        account("b", "pending", Some("u2")),
    ];
    assert_eq!(select_next(&accounts, &Some("u2".to_string())), Some(1));
    assert_eq!(select_next(&accounts, &Some("u3".to_string())), None);
}

#[test]
fn gate_admits_one_run_at_a_time() {
    let mut g = Gate::new();
    assert!(g.try_acquire());
    assert!(!g.try_acquire());
    g.release();
    assert!(g.try_acquire());
}

#[test]
fn policy_session_complete_marks_done() {
    let p = policy_for(&Outcome::SessionComplete);
    assert_eq!(p.status_update.as_deref(), Some("done"));
    assert_eq!(p.delay_secs, 0);
    assert!(!p.stop);
}

#[test]
fn policy_zigza_marks_error_and_backs_off() {
    let p = policy_for(&Outcome::ZigzaDetected);
    assert_eq!(p.status_update.as_deref(), Some("error: Zigza Retrying"));
    assert_eq!(p.delay_secs, 600);
    assert!(!p.stop);
}

#[test]
fn policy_login_required_stops_without_status_change() {
    let p = policy_for(&Outcome::LoginRequired);
    assert_eq!(p.status_update, None);
    assert_eq!(p.delay_secs, 0);
    assert!(p.stop);
}

#[test]
fn policy_server_full_waits_five_minutes() {
    let p = policy_for(&Outcome::ServerFull);
    assert_eq!(p.status_update, None);
    assert_eq!(p.delay_secs, 300);
    assert!(!p.stop);
}

#[test]
fn policy_invalid_command_restarts_after_five_seconds() {
    let p = policy_for(&Outcome::InvalidCommandRestart);
    assert_eq!(p.status_update, None);
    assert_eq!(p.delay_secs, 5);
    assert!(!p.stop);
}

#[test]
fn policy_transport_failures_retry_shortly() {
    for o in [
        Outcome::ConnectionFailed,
        Outcome::IdleTimeout,
        Outcome::ServerDisconnect,
        Outcome::HandshakeTimeout,
    ] {
        let p = policy_for(&o);
        assert_eq!(p.status_update, None);
        assert_eq!(p.delay_secs, 5);
        assert!(!p.stop);
    }
}

#[test]
fn policy_other_error_is_persisted_with_message() {
    let p = policy_for(&Outcome::Other("weird failure".to_string()));
    assert_eq!(p.status_update.as_deref(), Some("error: weird failure"));
    assert_eq!(p.delay_secs, 0);
    assert!(!p.stop);
}

#[test]
fn single_run_only_completion_marks_done() {
    assert_eq!(
        single_run_status(&Outcome::SessionComplete).as_deref(),
        Some("done")
    );
    assert_eq!(single_run_status(&Outcome::ZigzaDetected), None);
    assert_eq!(single_run_status(&Outcome::LoginRequired), None);
    assert_eq!(single_run_status(&Outcome::Other("x".to_string())), None);
}

fn db(accounts: Vec<Account>, cookies: Option<&str>) -> Database {
    Database {
        data: DbData {
            accounts,
            settings: Settings {
                cookies: cookies.map(str::to_string),
                admin_role_id: None,
                log_channel_id: None,
                mute_bot_messages: None,
            },
        },
    }
}

#[test]
fn drain_step_finishes_on_exhaustion() {
    let d = db(vec![account("a", "done", None)], Some("cookie"));
    assert!(matches!(plan_drain_step(&d, &None), DrainStep::Finished));
}

#[test]
fn drain_step_stops_without_credential() {
    let d = db(vec![account("a", "pending", None)], None);
    assert!(matches!(plan_drain_step(&d, &None), DrainStep::MissingCredential));
    let d2 = db(vec![account("a", "pending", None)], Some(""));
    assert!(matches!(plan_drain_step(&d2, &None), DrainStep::MissingCredential));
}

#[test]
fn drain_step_runs_best_candidate() {
    let d = db(
        vec![account("a", "error: x", None), account("b", "pending", None)],
        Some("cookie"),
    );
    assert!(matches!(plan_drain_step(&d, &None), DrainStep::Run(1)));
}
