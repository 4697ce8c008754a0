//! The in-memory account store and its mutations.
//!
//! Persistence of the record set is the surrounding application's concern;
//! every mutation here describes exactly how the in-memory data changes, and
//! the caller writes the data out after a successful call.

use vstd::prelude::*;
use vstd::string::StrSliceExecFns;
use vstd::string::StringExecFns;
use crate::account::{Account, AccountV, DbData, Settings, is_done, is_terminal_status, opt_view};
use crate::text::{str_eq, str_starts_with};

verus! {

/// The store: the canonical copy of all accounts and settings.
pub struct Database {
    pub data: DbData,
}

/// The views of every account in `s`, in order.
pub open spec fn views(s: Seq<Account>) -> Seq<AccountV> {
    s.map_values(|a: Account| a@)
}

/// Whether some account in `s` is named `name`.
pub open spec fn has_named(s: Seq<Account>, name: Seq<char>) -> bool {
    exists|i: int| 0 <= i < s.len() && s[i].name@ == name
}

/// `i` is the first index of `s` whose account is named `name`.
pub open spec fn is_first_named(s: Seq<Account>, name: Seq<char>, i: int) -> bool {
    &&& 0 <= i < s.len()
    &&& s[i].name@ == name
    &&& forall|j: int| 0 <= j < i ==> s[j].name@ != name
}

/// `s` with every account named `name` removed, order kept.
pub open spec fn drop_named(s: Seq<Account>, name: Seq<char>) -> Seq<Account>
    decreases s.len(),
{
    if s.len() == 0 {
        Seq::empty()
    } else {
        let r = drop_named(s.drop_last(), name);
        if s.last().name@ == name {
            r
        } else {
            r.push(s.last())
        }
    }
}

/// Whether the account belongs to the external user `uid`.
pub open spec fn owner_match(a: Account, uid: Seq<char>) -> bool {
    opt_view(a.user_id) == Option::<Seq<char>>::Some(uid)
}

/// Whether some account in `s` belongs to `uid`.
pub open spec fn has_owned(s: Seq<Account>, uid: Seq<char>) -> bool {
    exists|i: int| 0 <= i < s.len() && owner_match(s[i], uid)
}

/// `i` is the first index of `s` whose account belongs to `uid`.
pub open spec fn is_first_owned(s: Seq<Account>, uid: Seq<char>, i: int) -> bool {
    &&& 0 <= i < s.len()
    &&& owner_match(s[i], uid)
    &&& forall|j: int| 0 <= j < i ==> !owner_match(s[j], uid)
}

/// The views of the accounts in `s` that belong to `uid`, in order.
pub open spec fn owned_views(s: Seq<Account>, uid: Seq<char>) -> Seq<AccountV>
    decreases s.len(),
{
    if s.len() == 0 {
        Seq::empty()
    } else {
        let r = owned_views(s.drop_last(), uid);
        if owner_match(s.last(), uid) {
            r.push(s.last()@)
        } else {
            r
        }
    }
}

/// `b` is `a` after a status write: the status text replaced, `last_run`
/// stamped exactly when the new status is terminal, all else untouched.
pub open spec fn status_updated(a: Account, b: Account, status: Seq<char>) -> bool {
    &&& b.name == a.name
    &&& b.code == a.code
    &&& b.target_server == a.target_server
    &&& b.user_id == a.user_id
    &&& b.username == a.username
    &&& b.ping_enabled == a.ping_enabled
    &&& b.status@ == status
    &&& if is_terminal_status(status) {
        b.last_run is Some
    } else {
        b.last_run == a.last_run
    }
}

/// `b` is `a` with only the status text replaced.
pub open spec fn status_only_set(a: Account, b: Account, status: Seq<char>) -> bool {
    &&& b.name == a.name
    &&& b.code == a.code
    &&& b.target_server == a.target_server
    &&& b.user_id == a.user_id
    &&& b.username == a.username
    &&& b.ping_enabled == a.ping_enabled
    &&& b.status@ == status
    &&& b.last_run == a.last_run
}

/// `b` is `a` with only the ping flag replaced.
pub open spec fn ping_only_set(a: Account, b: Account, p: bool) -> bool {
    &&& b.name == a.name
    &&& b.code == a.code
    &&& b.target_server == a.target_server
    &&& b.user_id == a.user_id
    &&& b.username == a.username
    &&& b.ping_enabled == p
    &&& b.status == a.status
    &&& b.last_run == a.last_run
}

/// Relies on chrono's `Utc::now` and `DateTime::to_rfc3339`: an RFC 3339
/// rendering of the present moment. Nothing is assumed of its text beyond
/// its being non-empty, which the RFC 3339 format plainly gives.
#[verifier::external_body]
fn now_rfc3339() -> (r: String)
    ensures
        r@.len() > 0,
{
    chrono::Utc::now().to_rfc3339()
}

/// The position of the first account named `name`, if any.
fn find_first_named(v: &Vec<Account>, name: &str) -> (r: Option<usize>)
    ensures
        r matches Option::Some(i) ==> is_first_named(v@, name@, i as int),
        r is None ==> !has_named(v@, name@),
{
    let n = v.len();
    let mut i: usize = 0;
    while i < n
        invariant
            n == v@.len(),
            i <= n,
            forall|j: int| 0 <= j < i ==> v@[j].name@ != name@,
        decreases n - i,
    {
        if str_eq(v[i].name.as_str(), name) {
            return Option::Some(i);
        }
        i = i + 1;
    }
    Option::None
}

/// The position of the first account owned by `uid`, if any.
fn find_first_owned(v: &Vec<Account>, uid: &str) -> (r: Option<usize>)
    ensures
        r matches Option::Some(i) ==> is_first_owned(v@, uid@, i as int),
        r is None ==> !has_owned(v@, uid@),
{
    let n = v.len();
    let mut i: usize = 0;
    while i < n
        invariant
            n == v@.len(),
            i <= n,
            forall|j: int| 0 <= j < i ==> !owner_match(v@[j], uid@),
        decreases n - i,
    {
        let hit = match &v[i].user_id {
            Option::Some(u) => str_eq(u.as_str(), uid),
            Option::None => false,
        };
        if hit {
            return Option::Some(i);
        }
        i = i + 1;
    }
    Option::None
}

impl Database {
    /// Writes `status` onto the first account named `name`, stamping
    /// `last_run` when the status is terminal; a miss changes nothing.
    pub fn update_status(&mut self, name: &str, status: &str)
        ensures
            final(self).data.settings == old(self).data.settings,
            final(self).data.accounts@.len() == old(self).data.accounts@.len(),
            !has_named(old(self).data.accounts@, name@) ==> *final(self) == *old(self),
            forall|i: int|
                is_first_named(old(self).data.accounts@, name@, i) ==> {
                    &&& (forall|j: int|
                        0 <= j < old(self).data.accounts@.len() && j != i
                            ==> final(self).data.accounts@[j] == old(self).data.accounts@[j])
                    &&& status_updated(
                        old(self).data.accounts@[i],
                        final(self).data.accounts@[i],
                        status@,
                    )
                },
    {
        let ghost orig = self.data.accounts@;
        if let Option::Some(i) = find_first_named(&self.data.accounts, name) {
            let mut acc = self.data.accounts.remove(i);
            acc.status = String::from_str(status);
            if str_eq(status, "done") || str_starts_with(status, "error:") {
                acc.last_run = Option::Some(now_rfc3339());
            }
            proof {
                assert(is_terminal_status(status@) == (is_done(status@) || crate::text::starts_with(
                    status@,
                    "error:"@,
                )));
                assert(status_updated(orig[i as int], acc, status@));
                orig.remove_ensures(i as int);
                orig.remove(i as int).insert_ensures(i as int, acc);
            }
            self.data.accounts.insert(i, acc);
            proof {
                let fin = self.data.accounts@;
                assert(fin == orig.remove(i as int).insert(i as int, acc));
                assert(fin[i as int] == acc);
                assert forall|j: int| 0 <= j < orig.len() && j != i implies fin[j] == orig[j] by {
                    orig.remove_ensures(i as int);
                    orig.remove(i as int).insert_ensures(i as int, acc);
                }
            }
        }
    }

    /// Registers `account`, replacing any account of the same name.
    pub fn add_account(&mut self, account: Account)
        ensures
            final(self).data.settings == old(self).data.settings,
            final(self).data.accounts@ == drop_named(
                old(self).data.accounts@,
                account.name@,
            ).push(account),
    {
        let ghost orig = self.data.accounts@;
        let n = self.data.accounts.len();
        let mut kept: Vec<Account> = Vec::new();
        let mut i: usize = 0;
        while self.data.accounts.len() > 0
            invariant
                orig.len() == n,
                i <= n,
                i + self.data.accounts@.len() == n,
                self.data.accounts@ == orig.subrange(i as int, orig.len() as int),
                self.data.settings == old(self).data.settings,
                kept@ == drop_named(orig.subrange(0, i as int), account.name@),
            decreases self.data.accounts@.len(),
        {
            let a = self.data.accounts.remove(0);
            proof {
                assert(a == orig[i as int]);
                assert(self.data.accounts@ =~= orig.subrange(i + 1, orig.len() as int));
            }
            let matched = str_eq(a.name.as_str(), account.name.as_str());
            proof {
                assert(orig.subrange(0, i + 1).drop_last() =~= orig.subrange(0, i as int));
                assert(orig.subrange(0, i + 1).last() == orig[i as int]);
            }
            if !matched {
                kept.push(a);
            }
            i = i + 1;
        }
        proof {
            assert(orig.subrange(0, orig.len() as int) =~= orig);
        }
        kept.push(account);
        self.data.accounts = kept;
    }

    /// Removes every account named `name`; reports whether one existed.
    pub fn remove_account(&mut self, name: &str) -> (found: bool)
        ensures
            final(self).data.settings == old(self).data.settings,
            final(self).data.accounts@ == drop_named(old(self).data.accounts@, name@),
            found == has_named(old(self).data.accounts@, name@),
    {
        let ghost orig = self.data.accounts@;
        let n = self.data.accounts.len();
        let mut kept: Vec<Account> = Vec::new();
        let mut found = false;
        let mut i: usize = 0;
        while self.data.accounts.len() > 0
            invariant
                orig.len() == n,
                i <= n,
                i + self.data.accounts@.len() == n,
                self.data.accounts@ == orig.subrange(i as int, orig.len() as int),
                self.data.settings == old(self).data.settings,
                kept@ == drop_named(orig.subrange(0, i as int), name@),
                found == has_named(orig.subrange(0, i as int), name@),
            decreases self.data.accounts@.len(),
        {
            let a = self.data.accounts.remove(0);
            proof {
                assert(a == orig[i as int]);
                assert(self.data.accounts@ =~= orig.subrange(i + 1, orig.len() as int));
            }
            let matched = str_eq(a.name.as_str(), name);
            proof {
                let pre = orig.subrange(0, i as int);
                let ext = orig.subrange(0, i + 1);
                assert(ext.drop_last() =~= pre);
                assert(ext.last() == orig[i as int]);
                if matched {
                    assert(ext[i as int].name@ == name@);
                    assert(has_named(ext, name@));
                } else {
                    if has_named(pre, name@) {
                        let k = choose|k: int| 0 <= k < pre.len() && pre[k].name@ == name@;
                        assert(ext[k].name@ == name@);
                        assert(has_named(ext, name@));
                    }
                    if has_named(ext, name@) {
                        let k = choose|k: int| 0 <= k < ext.len() && ext[k].name@ == name@;
                        assert(k < i ==> pre[k].name@ == name@);
                        assert(has_named(pre, name@));
                    }
                }
            }
            if matched {
                found = true;
            } else {
                kept.push(a);
            }
            i = i + 1;
        }
        proof {
            assert(orig.subrange(0, orig.len() as int) =~= orig);
        }
        self.data.accounts = kept;
        found
    }

    /// Sets every account's status back to `pending`.
    pub fn reset_all_statuses(&mut self)
        ensures
            final(self).data.settings == old(self).data.settings,
            final(self).data.accounts@.len() == old(self).data.accounts@.len(),
            forall|j: int|
                0 <= j < old(self).data.accounts@.len() ==> status_only_set(
                    old(self).data.accounts@[j],
                    #[trigger] final(self).data.accounts@[j],
                    "pending"@,
                ),
    {
        let ghost orig = self.data.accounts@;
        let n = self.data.accounts.len();
        let mut i: usize = 0;
        while i < n
            invariant
                n == orig.len(),
                i <= n,
                self.data.accounts@.len() == orig.len(),
                self.data.settings == old(self).data.settings,
                forall|j: int|
                    0 <= j < i ==> status_only_set(
                        orig[j],
                        #[trigger] self.data.accounts@[j],
                        "pending"@,
                    ),
                forall|j: int| i <= j < n ==> self.data.accounts@[j] == orig[j],
            decreases n - i,
        {
            let ghost pre = self.data.accounts@;
            let mut acc = self.data.accounts.remove(i);
            acc.status = String::from_str("pending");
            self.data.accounts.insert(i, acc);
            proof {
                let fin = self.data.accounts@;
                assert(fin == pre.remove(i as int).insert(i as int, acc));
                pre.remove_ensures(i as int);
                pre.remove(i as int).insert_ensures(i as int, acc);
                assert(fin[i as int] == acc);
                assert forall|j: int| 0 <= j < n && j != i implies fin[j] == pre[j] by {
                    pre.remove_ensures(i as int);
                    pre.remove(i as int).insert_ensures(i as int, acc);
                }
                assert(status_only_set(orig[i as int], fin[i as int], "pending"@));
            }
            i = i + 1;
        }
    }

    /// Flips the ping flag of `uid`'s first account and writes the new value
    /// onto all of `uid`'s accounts; errs when `uid` owns none.
    pub fn toggle_ping(&mut self, user_id: &str) -> (r: Result<bool, String>)
        ensures
            final(self).data.settings == old(self).data.settings,
            final(self).data.accounts@.len() == old(self).data.accounts@.len(),
            !has_owned(old(self).data.accounts@, user_id@) ==> {
                &&& *final(self) == *old(self)
                &&& r matches Err(m) && m@ == "No accounts found for this user."@
            },
            has_owned(old(self).data.accounts@, user_id@) ==> {
                &&& r is Ok
                &&& forall|i: int|
                    is_first_owned(old(self).data.accounts@, user_id@, i) ==> r
                        == Result::<bool, String>::Ok(!old(self).data.accounts@[i].ping_enabled)
                &&& forall|j: int|
                    0 <= j < old(self).data.accounts@.len() ==> if owner_match(
                        #[trigger] old(self).data.accounts@[j],
                        user_id@,
                    ) {
                        ping_only_set(
                            old(self).data.accounts@[j],
                            final(self).data.accounts@[j],
                            r.unwrap(),
                        )
                    } else {
                        final(self).data.accounts@[j] == old(self).data.accounts@[j]
                    }
            },
    {
        let ghost orig = self.data.accounts@;
        let n = self.data.accounts.len();
        let first: usize = match find_first_owned(&self.data.accounts, user_id) {
            Option::Some(i) => i,
            Option::None => {
                return Result::Err(String::from_str("No accounts found for this user."));
            },
        };
        proof {
            assert(is_first_owned(orig, user_id@, first as int));
            assert(has_owned(orig, user_id@));
        }
        let new_state = !self.data.accounts[first].ping_enabled;
        let mut j: usize = 0;
        while j < n
            invariant
                n == orig.len(),
                j <= n,
                self.data.accounts@.len() == orig.len(),
                self.data.settings == old(self).data.settings,
                new_state == !orig[first as int].ping_enabled,
                first < n,
                forall|k: int|
                    0 <= k < j ==> if owner_match(#[trigger] orig[k], user_id@) {
                        ping_only_set(orig[k], self.data.accounts@[k], new_state)
                    } else {
                        self.data.accounts@[k] == orig[k]
                    },
                forall|k: int| j <= k < n ==> self.data.accounts@[k] == orig[k],
            decreases n - j,
        {
            let hit = match &self.data.accounts[j].user_id {
                Option::Some(u) => str_eq(u.as_str(), user_id),
                Option::None => false,
            };
            if hit {
                let ghost pre = self.data.accounts@;
                let mut acc = self.data.accounts.remove(j);
                acc.ping_enabled = new_state;
                self.data.accounts.insert(j, acc);
                proof {
                    let fin = self.data.accounts@;
                    assert(fin == pre.remove(j as int).insert(j as int, acc));
                    pre.remove_ensures(j as int);
                    pre.remove(j as int).insert_ensures(j as int, acc);
                    assert(fin[j as int] == acc);
                    assert forall|k: int| 0 <= k < n && k != j implies fin[k] == pre[k] by {
                        pre.remove_ensures(j as int);
                        pre.remove(j as int).insert_ensures(j as int, acc);
                    }
                    assert(ping_only_set(orig[j as int], fin[j as int], new_state));
                }
            }
            j = j + 1;
        }
        Result::Ok(new_state)
    }

    /// Mutes or unmutes the routed notifications.
    pub fn set_mute(&mut self, mute: bool)
        ensures
            final(self).data.accounts == old(self).data.accounts,
            final(self).data.settings.cookies == old(self).data.settings.cookies,
            final(self).data.settings.admin_role_id == old(self).data.settings.admin_role_id,
            final(self).data.settings.log_channel_id == old(self).data.settings.log_channel_id,
            final(self).data.settings.mute_bot_messages == Option::Some(mute),
    {
        self.data.settings.mute_bot_messages = Option::Some(mute);
    }

    /// Sets the channel that routed notifications go to.
    pub fn set_log_channel(&mut self, channel_id: String)
        ensures
            final(self).data.accounts == old(self).data.accounts,
            final(self).data.settings.cookies == old(self).data.settings.cookies,
            final(self).data.settings.admin_role_id == old(self).data.settings.admin_role_id,
            final(self).data.settings.mute_bot_messages == old(
                self,
            ).data.settings.mute_bot_messages,
            final(self).data.settings.log_channel_id == Option::Some(channel_id),
    {
        self.data.settings.log_channel_id = Option::Some(channel_id);
    }

    /// Sets the role that may run the administrative operations.
    pub fn set_admin_role(&mut self, role_id: String)
        ensures
            final(self).data.accounts == old(self).data.accounts,
            final(self).data.settings.cookies == old(self).data.settings.cookies,
            final(self).data.settings.log_channel_id == old(self).data.settings.log_channel_id,
            final(self).data.settings.mute_bot_messages == old(
                self,
            ).data.settings.mute_bot_messages,
            final(self).data.settings.admin_role_id == Option::Some(role_id),
    {
        self.data.settings.admin_role_id = Option::Some(role_id);
    }

    /// The accounts belonging to `user_id`, in store order.
    pub fn get_user_accounts(&self, user_id: &str) -> (r: Vec<Account>)
        ensures
            views(r@) == owned_views(self.data.accounts@, user_id@),
    {
        let ghost orig = self.data.accounts@;
        let n = self.data.accounts.len();
        let mut out: Vec<Account> = Vec::new();
        let mut i: usize = 0;
        while i < n
            invariant
                n == orig.len(),
                orig == self.data.accounts@,
                i <= n,
                views(out@) == owned_views(orig.subrange(0, i as int), user_id@),
            decreases n - i,
        {
            let hit = match &self.data.accounts[i].user_id {
                Option::Some(u) => str_eq(u.as_str(), user_id),
                Option::None => false,
            };
            proof {
                assert(orig.subrange(0, i + 1).drop_last() =~= orig.subrange(0, i as int));
                assert(orig.subrange(0, i + 1).last() == orig[i as int]);
            }
            if hit {
                let c = self.data.accounts[i].clone();
                out.push(c);
                proof {
                    assert(views(out@) =~= owned_views(orig.subrange(0, i + 1), user_id@));
                }
            }
            i = i + 1;
        }
        proof {
            assert(orig.subrange(0, orig.len() as int) =~= orig);
        }
        out
    }
}

/// Law: a matching account's view is among the views listed for its owner.
pub proof fn lemma_owned_views_complete(s: Seq<Account>, uid: Seq<char>, i: int)
    requires
        0 <= i < s.len(),
        owner_match(s[i], uid),
    ensures
        owned_views(s, uid).contains(s[i]@),
    decreases s.len(),
{
    if i == s.len() - 1 {
        assert(owned_views(s, uid).last() == s[i]@);
    } else {
        lemma_owned_views_complete(s.drop_last(), uid, i);
        let r = owned_views(s.drop_last(), uid);
        let k = choose|k: int| 0 <= k < r.len() && r[k] == s[i]@;
        assert(owned_views(s, uid)[k] == s[i]@);
    }
}

/// Law: a status update to `done` followed by a listing shows the account
/// with status exactly `done` and a stamped `last_run`; when the account
/// belongs to a user, its owner's listing shows it too.
pub proof fn lemma_update_done_round_trip(
    pre: Seq<Account>,
    post: Seq<Account>,
    name: Seq<char>,
    i: int,
)
    requires
        is_first_named(pre, name, i),
        post.len() == pre.len(),
        status_updated(pre[i], post[i], "done"@),
    ensures
        views(post)[i].name == name,
        views(post)[i].status == "done"@,
        views(post)[i].last_run is Some,
        forall|uid: Seq<char>|
            owner_match(pre[i], uid) ==> #[trigger] owned_views(post, uid).contains(post[i]@),
{
    assert(is_done("done"@));
    assert(is_terminal_status("done"@));
    assert(post[i].last_run is Some);
    assert forall|uid: Seq<char>| owner_match(pre[i], uid) implies #[trigger] owned_views(
        post,
        uid,
    ).contains(post[i]@) by {
        assert(owner_match(post[i], uid));
        lemma_owned_views_complete(post, uid, i);
    }
}

} // verus!
