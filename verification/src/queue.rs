//! The job queue: the single-flight gate, the candidate selection order,
//! and the per-outcome retry policy a drain applies.

use vstd::prelude::*;
use vstd::string::StringExecFns;
use crate::account::{Account, is_done, is_error_status};
use crate::session::Outcome;
use crate::store::{Database, owner_match};

verus! {

/// Seconds slept between two drain iterations, against tight looping.
pub const LOOP_SPACING_SECS: u64 = 1;

/// The single-flight gate: one shared flag that every automation run — a
/// drain or a single-account run — must take before working and give back
/// after. It admits one holder at a time.
pub struct Gate {
    active: bool,
}

impl Gate {
    /// Whether some run holds the flag.
    pub closed spec fn is_active(&self) -> bool {
        self.active
    }

    /// A fresh gate, held by nobody.
    pub fn new() -> (g: Gate)
        ensures
            !g.is_active(),
    {
        Gate { active: false }
    }

    /// Takes the flag: succeeds exactly when nobody held it, and leaves it
    /// held either way.
    pub fn try_acquire(&mut self) -> (r: bool)
        ensures
            r == !old(self).is_active(),
            final(self).is_active(),
    {
        if self.active {
            false
        } else {
            self.active = true;
            true
        }
    }

    /// Whether some run holds the flag; a drain reads this at each loop top
    /// and winds down once an administrative stop has cleared it.
    pub fn is_held(&self) -> (r: bool)
        ensures
            r == self.is_active(),
    {
        self.active
    }

    /// Gives the flag back.
    pub fn release(&mut self)
        ensures
            !final(self).is_active(),
    {
        self.active = false;
    }
}

/// Law: exactly one run is admitted at a time — of two acquisitions with
/// no release between them, the first succeeds and the second is turned
/// away.
pub proof fn lemma_gate_single_flight(g0: Gate, g1: Gate, g2: Gate, r1: bool, r2: bool)
    requires
        !g0.is_active(),
        r1 == !g0.is_active() && g1.is_active(),
        r2 == !g1.is_active() && g2.is_active(),
    ensures
        r1,
        !r2,
{
}

/// An account a drain may pick: not `done`, and the owner filter, when one
/// is set, names its owner.
pub open spec fn eligible(a: Account, filter: Option<Seq<char>>) -> bool {
    &&& !is_done(a@.status)
    &&& match filter {
        Option::Some(uid) => owner_match(a, uid),
        Option::None => true,
    }
}

/// A fresh account: one whose status does not read as an earlier error.
pub open spec fn fresh(a: Account) -> bool {
    !is_error_status(a@.status)
}

/// Picks the account a drain attempts next: the first eligible fresh
/// account in store order, and only when no fresh one is eligible the first
/// eligible retrying one.
pub fn select_next(accounts: &Vec<Account>, owner_filter: &Option<String>) -> (r: Option<usize>)
    ensures
        r is None ==> forall|j: int|
            0 <= j < accounts@.len() ==> !eligible(
                #[trigger] accounts@[j],
                crate::account::opt_view(*owner_filter),
            ),
        r matches Option::Some(i) ==> {
            let filt = crate::account::opt_view(*owner_filter);
            &&& 0 <= i < accounts@.len()
            &&& eligible(accounts@[i as int], filt)
            &&& (fresh(accounts@[i as int]) ==> forall|j: int|
                0 <= j < i ==> !(eligible(#[trigger] accounts@[j], filt) && fresh(accounts@[j])))
            &&& (!fresh(accounts@[i as int]) ==> (forall|j: int|
                0 <= j < accounts@.len() ==> !(eligible(#[trigger] accounts@[j], filt) && fresh(
                    accounts@[j],
                ))) && (forall|j: int| 0 <= j < i ==> !eligible(#[trigger] accounts@[j], filt)))
        },
{
    let ghost filt = crate::account::opt_view(*owner_filter);
    let n = accounts.len();
    let mut i: usize = 0;
    while i < n
        invariant
            n == accounts@.len(),
            i <= n,
            filt == crate::account::opt_view(*owner_filter),
            forall|j: int|
                0 <= j < i ==> !(eligible(#[trigger] accounts@[j], filt) && fresh(accounts@[j])),
        decreases n - i,
    {
        if is_eligible(&accounts[i], owner_filter) && is_fresh(&accounts[i]) {
            return Option::Some(i);
        }
        i = i + 1;
    }
    let mut k: usize = 0;
    while k < n
        invariant
            n == accounts@.len(),
            k <= n,
            filt == crate::account::opt_view(*owner_filter),
            forall|j: int|
                0 <= j < n ==> !(eligible(#[trigger] accounts@[j], filt) && fresh(accounts@[j])),
            forall|j: int| 0 <= j < k ==> !eligible(#[trigger] accounts@[j], filt),
        decreases n - k,
    {
        if is_eligible(&accounts[k], owner_filter) {
            return Option::Some(k);
        }
        k = k + 1;
    }
    Option::None
}

/// Whether the drain may pick this account.
fn is_eligible(a: &Account, owner_filter: &Option<String>) -> (r: bool)
    ensures
        r == eligible(*a, crate::account::opt_view(*owner_filter)),
{
    if crate::text::str_eq(a.status.as_str(), "done") {
        return false;
    }
    match owner_filter {
        Option::Some(uid) => match &a.user_id {
            Option::Some(u) => crate::text::str_eq(u.as_str(), uid.as_str()),
            Option::None => false,
        },
        Option::None => true,
    }
}

/// Whether this account still counts as fresh.
fn is_fresh(a: &Account) -> (r: bool)
    ensures
        r == fresh(*a),
{
    !crate::text::str_starts_with(a.status.as_str(), "error")
}

/// Law: a drain never selects an account whose status is `done`.
pub proof fn lemma_done_never_selected(
    accounts: Seq<Account>,
    filter: Option<Seq<char>>,
    i: int,
)
    requires
        0 <= i < accounts.len(),
        eligible(accounts[i], filter),
    ensures
        !is_done(accounts[i]@.status),
{
}

/// Law: fresh accounts go before retrying ones — whenever the selected
/// account is error-class, no eligible fresh account existed at all.
pub proof fn lemma_fresh_before_retrying(
    accounts: Seq<Account>,
    filter: Option<Seq<char>>,
    i: int,
)
    requires
        0 <= i < accounts.len(),
        eligible(accounts[i], filter),
        !fresh(accounts[i]),
        forall|j: int|
            0 <= j < accounts.len() ==> !(eligible(#[trigger] accounts[j], filter) && fresh(
                accounts[j],
            )),
    ensures
        forall|j: int|
            0 <= j < accounts.len() && eligible(#[trigger] accounts[j], filter) ==> is_error_status(
                accounts[j]@.status,
            ),
{
}

/// What a drain does with one outcome: the status to write, if any, the
/// delay before the next iteration, and whether the whole drain stops.
pub struct DrainPolicy {
    pub status_update: Option<String>,
    pub delay_secs: u64,
    pub stop: bool,
}

/// The outcome policy table of the drain.
///
/// A completed session marks the account `done` and goes straight on. A
/// rejected command restarts after five seconds. The Zigza failure marks
/// the account `error: Zigza Retrying` and backs off ten minutes. A full
/// server backs off five minutes with no status change. A required login
/// stops the whole drain, leaving the status alone, since no further run
/// can succeed. The transport failures retry after five seconds with no
/// status change. Any other failure marks the account `error: <message>`
/// and goes straight on.
pub fn policy_for(outcome: &Outcome) -> (p: DrainPolicy)
    ensures
        outcome is SessionComplete ==> (p.status_update matches Option::Some(s) && s@ == "done"@
            && p.delay_secs == 0 && !p.stop),
        outcome is InvalidCommandRestart ==> p.status_update is None && p.delay_secs == 5
            && !p.stop,
        outcome is ZigzaDetected ==> (p.status_update matches Option::Some(s) && s@
            == "error: Zigza Retrying"@ && p.delay_secs == 600 && !p.stop),
        outcome is ServerFull ==> p.status_update is None && p.delay_secs == 300 && !p.stop,
        outcome is LoginRequired ==> p.status_update is None && p.delay_secs == 0 && p.stop,
        outcome is ConnectionFailed || outcome is IdleTimeout || outcome is ServerDisconnect
            || outcome is HandshakeTimeout ==> p.status_update is None && p.delay_secs == 5
            && !p.stop,
        forall|m: String|
            *outcome == Outcome::Other(m) ==> (p.status_update matches Option::Some(s) && s@
                == "error: "@ + m@ && p.delay_secs == 0 && !p.stop),
{
    match outcome {
        Outcome::SessionComplete => DrainPolicy {
            status_update: Option::Some(String::from_str("done")),
            delay_secs: 0,
            stop: false,
        },
        Outcome::InvalidCommandRestart => DrainPolicy {
            status_update: Option::None,
            delay_secs: 5,
            stop: false,
        },
        Outcome::ZigzaDetected => DrainPolicy {
            status_update: Option::Some(String::from_str("error: Zigza Retrying")),
            delay_secs: 600,
            stop: false,
        },
        Outcome::ServerFull => DrainPolicy {
            status_update: Option::None,
            delay_secs: 300,
            stop: false,
        },
        Outcome::LoginRequired => DrainPolicy {
            status_update: Option::None,
            delay_secs: 0,
            stop: true,
        },
        Outcome::ConnectionFailed | Outcome::IdleTimeout | Outcome::ServerDisconnect
            | Outcome::HandshakeTimeout => DrainPolicy {
            status_update: Option::None,
            delay_secs: 5,
            stop: false,
        },
        Outcome::Other(m) => DrainPolicy {
            status_update: Option::Some(String::from_str("error: ").concat(m.as_str())),
            delay_secs: 0,
            stop: false,
        },
    }
}

/// What a single-account run writes: only a completed session marks the
/// account `done`; every other outcome leaves the status untouched and is
/// only reported.
pub fn single_run_status(outcome: &Outcome) -> (r: Option<String>)
    ensures
        outcome is SessionComplete ==> (r matches Option::Some(s) && s@ == "done"@),
        !(outcome is SessionComplete) ==> r is None,
{
    match outcome {
        Outcome::SessionComplete => Option::Some(String::from_str("done")),
        _ => Option::None,
    }
}

/// What a drain iteration does before any session runs.
pub enum DrainStep {
    /// No eligible account is left: the drain completes normally.
    Finished,
    /// No credential is configured: no further progress is possible.
    MissingCredential,
    /// Run a session for the account at this store position.
    Run(usize),
}

/// Plans one drain iteration over the current store: picks the candidate in
/// fresh-then-retrying order, and stops on exhaustion or on an empty
/// credential.
pub fn plan_drain_step(db: &Database, owner_filter: &Option<String>) -> (r: DrainStep)
    ensures
        r is Finished ==> forall|j: int|
            0 <= j < db.data.accounts@.len() ==> !eligible(
                #[trigger] db.data.accounts@[j],
                crate::account::opt_view(*owner_filter),
            ),
        r is MissingCredential ==> (exists|j: int|
            0 <= j < db.data.accounts@.len() && eligible(
                #[trigger] db.data.accounts@[j],
                crate::account::opt_view(*owner_filter),
            )) && (db.data.settings@.cookies is None || db.data.settings@.cookies
            == Option::Some(Seq::<char>::empty())),
        r matches DrainStep::Run(i) ==> {
            let filt = crate::account::opt_view(*owner_filter);
            &&& 0 <= i < db.data.accounts@.len()
            &&& eligible(db.data.accounts@[i as int], filt)
            &&& !(db.data.settings@.cookies is None) && db.data.settings@.cookies
                != Option::Some(Seq::<char>::empty())
            &&& (fresh(db.data.accounts@[i as int]) ==> forall|j: int|
                0 <= j < i ==> !(eligible(#[trigger] db.data.accounts@[j], filt) && fresh(
                    db.data.accounts@[j],
                )))
            &&& (!fresh(db.data.accounts@[i as int]) ==> (forall|j: int|
                0 <= j < db.data.accounts@.len() ==> !(eligible(
                    #[trigger] db.data.accounts@[j],
                    filt,
                ) && fresh(db.data.accounts@[j]))) && (forall|j: int|
                0 <= j < i ==> !eligible(#[trigger] db.data.accounts@[j], filt)))
        },
{
    match select_next(&db.data.accounts, owner_filter) {
        Option::None => DrainStep::Finished,
        Option::Some(i) => {
            let has_credential = match &db.data.settings.cookies {
                Option::Some(c) => !c.as_str().is_empty(),
                Option::None => false,
            };
            if has_credential {
                DrainStep::Run(i)
            } else {
                proof {
                    let filt = crate::account::opt_view(*owner_filter);
                    assert(eligible(db.data.accounts@[i as int], filt));
                }
                DrainStep::MissingCredential
            }
        },
    }
}

} // verus!
