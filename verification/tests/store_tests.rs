use evertext_runner::account::{Account, DbData, Settings};
use evertext_runner::store::Database;

fn account(name: &str, status: &str, user_id: Option<&str>) -> Account {
    Account {
        name: name.to_string(),
        code: format!("code-{}", name),
        target_server: None,
        user_id: user_id.map(|u| u.to_string()),
        username: None,
        ping_enabled: false,
        status: status.to_string(),
        last_run: None,
    }
}

fn db_with(accounts: Vec<Account>) -> Database {
    Database {
        data: DbData {
            accounts,
            settings: Settings {
                cookies: None,
                admin_role_id: None,
                log_channel_id: None,
                mute_bot_messages: None,
            },
        },
    }
}

#[test]
fn add_account_appends() {
    let mut db = db_with(vec![account("a", "pending", None)]);
    db.add_account(account("b", "pending", None));
    assert_eq!(db.data.accounts.len(), 2);
    assert_eq!(db.data.accounts[1].name, "b");
}

#[test]
fn add_account_replaces_same_name() {
    let mut db = db_with(vec![account("a", "done", None), account("b", "pending", None)]);
    let mut replacement = account("a", "pending", None);
    replacement.code = "newcode".to_string();
    db.add_account(replacement);
    assert_eq!(db.data.accounts.len(), 2);
    assert_eq!(db.data.accounts[0].name, "b");
    assert_eq!(db.data.accounts[1].name, "a");
    assert_eq!(db.data.accounts[1].code, "newcode");
    assert_eq!(db.data.accounts[1].status, "pending");
}

#[test]
fn remove_account_reports_presence() {
    let mut db = db_with(vec![account("a", "pending", None), account("b", "pending", None)]);
    assert!(db.remove_account("a"));
    assert_eq!(db.data.accounts.len(), 1);
    assert_eq!(db.data.accounts[0].name, "b");
    assert!(!db.remove_account("missing"));
    assert_eq!(db.data.accounts.len(), 1);
}

#[test]
fn update_status_done_stamps_last_run() {
    let mut db = db_with(vec![account("a", "pending", Some("u1"))]);
    db.update_status("a", "done");
    assert_eq!(db.data.accounts[0].status, "done");
    assert!(db.data.accounts[0].last_run.is_some());
}

#[test]
fn update_status_error_stamps_last_run() {
    let mut db = db_with(vec![account("a", "pending", None)]);
    db.update_status("a", "error: Zigza Retrying");
    assert_eq!(db.data.accounts[0].status, "error: Zigza Retrying");
    assert!(db.data.accounts[0].last_run.is_some());
}

#[test]
fn update_status_non_terminal_leaves_last_run() {
    let mut db = db_with(vec![account("a", "done", None)]);
    db.update_status("a", "pending");
    assert_eq!(db.data.accounts[0].status, "pending");
    assert!(db.data.accounts[0].last_run.is_none());
}

#[test]
fn update_status_missing_name_changes_nothing() {
    let mut db = db_with(vec![account("a", "pending", None)]);
    db.update_status("missing", "done");
    assert_eq!(db.data.accounts[0].status, "pending");
    assert!(db.data.accounts[0].last_run.is_none());
}

#[test]
fn update_status_then_listing_round_trip() {
    let mut db = db_with(vec![account("a", "pending", Some("u1")), account("b", "pending", Some("u1"))]);
    db.update_status("a", "done");
    let listed = db.get_user_accounts("u1");
    let found = listed.iter().find(|x| x.name == "a").expect("account listed");
    assert_eq!(found.status, "done");
    assert!(found.last_run.is_some());
}

#[test]
fn reset_all_statuses_sets_pending() {
    let mut db = db_with(vec![
        account("a", "done", None),
        account("b", "error: boom", None),
        account("c", "pending", None),
    ]);
    db.reset_all_statuses();
    for a in &db.data.accounts {
        assert_eq!(a.status, "pending");
    }
}

#[test]
fn toggle_ping_errs_without_accounts() {
    let mut db = db_with(vec![account("a", "pending", Some("other"))]);
    let r = db.toggle_ping("u1");
    assert_eq!(r, Err("No accounts found for this user.".to_string()));
    assert!(!db.data.accounts[0].ping_enabled);
}

#[test]
fn toggle_ping_flips_first_and_applies_to_all() {
    let mut a1 = account("a", "pending", Some("u1"));
    a1.ping_enabled = false;
    let mut a2 = account("b", "pending", Some("u1"));
    a2.ping_enabled = true;
    let other = account("c", "pending", Some("u2"));
    let mut db = db_with(vec![a1, a2, other]);
    let r = db.toggle_ping("u1");
    assert_eq!(r, Ok(true));
    assert!(db.data.accounts[0].ping_enabled);
    assert!(db.data.accounts[1].ping_enabled);
    assert!(!db.data.accounts[2].ping_enabled);
    let r2 = db.toggle_ping("u1");
    assert_eq!(r2, Ok(false));
    assert!(!db.data.accounts[0].ping_enabled);
    assert!(!db.data.accounts[1].ping_enabled);
}

#[test]
fn settings_setters() {
    let mut db = db_with(vec![]);
    db.set_mute(true);
    assert_eq!(db.data.settings.mute_bot_messages, Some(true));
    db.set_mute(false);
    assert_eq!(db.data.settings.mute_bot_messages, Some(false));
    db.set_log_channel("123".to_string());
    assert_eq!(db.data.settings.log_channel_id.as_deref(), Some("123"));
    db.set_admin_role("456".to_string());
    assert_eq!(db.data.settings.admin_role_id.as_deref(), Some("456"));
}

#[test]
fn get_user_accounts_filters_by_owner() {
    let db = db_with(vec![
        account("a", "pending", Some("u1")),
        account("b", "done", Some("u2")),
        account("c", "pending", Some("u1")),
        account("d", "pending", None),
    ]);
    let mine = db.get_user_accounts("u1");
    let names: Vec<&str> = mine.iter().map(|a| a.name.as_str()).collect();
    assert_eq!(names, vec!["a", "c"]);
}
