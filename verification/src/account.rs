//! The record types of the store: accounts, settings, and the whole data set.

use vstd::prelude::*;
use crate::text::starts_with;

verus! {

/// Mathematical image of an [`Account`]: every text field as a character
/// sequence.
pub ghost struct AccountV {
    pub name: Seq<char>,
    pub code: Seq<char>,
    pub target_server: Option<Seq<char>>,
    pub user_id: Option<Seq<char>>,
    pub username: Option<Seq<char>>,
    pub ping_enabled: bool,
    pub status: Seq<char>,
    pub last_run: Option<Seq<char>>,
}

/// The characters of an optional string.
pub open spec fn opt_view(o: Option<String>) -> Option<Seq<char>> {
    match o {
        Option::Some(s) => Option::Some(s@),
        Option::None => Option::None,
    }
}

/// One registered account. `name` is the primary key; `status` is one of
/// `pending`, `done`, or an `error: <reason>` text whose `error` prefix is
/// what the queue's retry ordering reads.
pub struct Account {
    pub name: String,
    pub code: String,
    pub target_server: Option<String>,
    pub user_id: Option<String>,
    pub username: Option<String>,
    pub ping_enabled: bool,
    pub status: String,
    pub last_run: Option<String>,
}

impl View for Account {
    type V = AccountV;

    open spec fn view(&self) -> AccountV {
        AccountV {
            name: self.name@,
            code: self.code@,
            target_server: opt_view(self.target_server),
            user_id: opt_view(self.user_id),
            username: opt_view(self.username),
            ping_enabled: self.ping_enabled,
            status: self.status@,
            last_run: opt_view(self.last_run),
        }
    }
}

/// Mathematical image of [`Settings`].
pub ghost struct SettingsV {
    pub cookies: Option<Seq<char>>,
    pub admin_role_id: Option<Seq<char>>,
    pub log_channel_id: Option<Seq<char>>,
    pub mute_bot_messages: Option<bool>,
}

/// The singleton configuration record.
pub struct Settings {
    pub cookies: Option<String>,
    pub admin_role_id: Option<String>,
    pub log_channel_id: Option<String>,
    pub mute_bot_messages: Option<bool>,
}

impl View for Settings {
    type V = SettingsV;

    open spec fn view(&self) -> SettingsV {
        SettingsV {
            cookies: opt_view(self.cookies),
            admin_role_id: opt_view(self.admin_role_id),
            log_channel_id: opt_view(self.log_channel_id),
            mute_bot_messages: self.mute_bot_messages,
        }
    }
}

/// The whole persisted data set.
pub struct DbData {
    pub accounts: Vec<Account>,
    pub settings: Settings,
}

/// A `done` status: the queue is finished with the account.
pub open spec fn is_done(status: Seq<char>) -> bool {
    status == "done"@
}

/// An `error`-class status: the account failed before and is retried after
/// the fresh ones.
pub open spec fn is_error_status(status: Seq<char>) -> bool {
    starts_with(status, "error"@)
}

/// A terminal status, the ones that stamp `last_run`: `done` or any
/// `error:`-prefixed text.
pub open spec fn is_terminal_status(status: Seq<char>) -> bool {
    is_done(status) || starts_with(status, "error:"@)
}

fn clone_opt_string(o: &Option<String>) -> (r: Option<String>)
    ensures
        opt_view(r) == opt_view(*o),
{
    match o {
        Option::Some(s) => Option::Some(s.clone()),
        Option::None => Option::None,
    }
}

impl Clone for Account {
    /// A copy whose every field reads the same.
    fn clone(&self) -> (r: Self)
        ensures
            r@ == self@,
    {
        Account {
            name: self.name.clone(),
            code: self.code.clone(),
            target_server: clone_opt_string(&self.target_server),
            user_id: clone_opt_string(&self.user_id),
            username: clone_opt_string(&self.username),
            ping_enabled: self.ping_enabled,
            status: self.status.clone(),
            last_run: clone_opt_string(&self.last_run),
        }
    }
}

impl Clone for Settings {
    /// A copy whose every field reads the same.
    fn clone(&self) -> (r: Self)
        ensures
            r@ == self@,
    {
        Settings {
            cookies: clone_opt_string(&self.cookies),
            admin_role_id: clone_opt_string(&self.admin_role_id),
            log_channel_id: clone_opt_string(&self.log_channel_id),
            mute_bot_messages: if self.mute_bot_messages.is_some() {
                Option::Some(*self.mute_bot_messages.as_ref().unwrap())
            } else {
                Option::None
            },
        }
    }
}

} // verus!
