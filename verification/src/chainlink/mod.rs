//! The chain link: what is known of the base chain and what follows from it.
use vstd::prelude::*;
use crate::account::{AccountMode, RemoteAccount};
use crate::chainlink::errors::ChainlinkError;
use crate::lists::{lemma_picked_step, picked};
use crate::program_ids::DLP_PROGRAM_ID;
use crate::pubkey::Pubkey;
use crate::text::{concat4, decimal, decimal_text};

pub mod account_still_undelegating_on_chain;
pub mod blacklisted_accounts;
pub mod config;
pub mod errors;
pub mod evictions;
pub mod fetch_cloner;
pub mod record_mirror;
pub mod record_stream;
pub mod unique_pubkey_estimator;

verus! {

/// How many updates of subscriptions may wait.
pub const SUBSCRIPTION_UPDATE_LIMIT: usize = 5_000;

/// How many seconds accounts may take to be made available.
pub const ENSURE_ACCOUNTS_TIMEOUT_SECS: u64 = 30;

/// What the rollup has of an account.
#[derive(Clone, Copy, Debug, PartialEq, Eq, Structural)]
pub enum AccountStatusOnEr {
    /// The rollup does not have the account, so nothing is known of its delegation there.
    Missing,
    /// The rollup has the account and takes it for delegated.
    Delegated,
    /// The rollup has the account and does not take it for delegated.
    NotDelegated,
}

impl Default for AccountStatusOnEr {
    fn default() -> (r: AccountStatusOnEr)
        ensures
            r == AccountStatusOnEr::Missing,
    {
        AccountStatusOnEr::Missing
    }
}

impl AccountStatusOnEr {
    /// Whether the rollup takes the account for delegated.
    pub fn is_delegated(&self) -> (r: bool)
        ensures
            r == (*self is Delegated),
    {
        match self {
            AccountStatusOnEr::Delegated => true,
            _ => false,
        }
    }

    /// The name of the status.
    pub open spec fn label(&self) -> Seq<char> {
        match self {
            AccountStatusOnEr::Missing => "missing"@,
            AccountStatusOnEr::Delegated => "delegated"@,
            AccountStatusOnEr::NotDelegated => "not_delegated"@,
        }
    }

    /// The name of the status.
    pub fn as_str(&self) -> (r: &'static str)
        ensures
            r@ == self.label(),
    {
        match self {
            AccountStatusOnEr::Missing => "missing",
            AccountStatusOnEr::Delegated => "delegated",
            AccountStatusOnEr::NotDelegated => "not_delegated",
        }
    }
}

/// What both sides say about the delegation of an account.
#[derive(Clone, Copy, Debug, PartialEq, Eq, Structural)]
pub struct AccountDelegationStatus {
    pub delegated_on_base: bool,
    pub account_on_er: AccountStatusOnEr,
}

impl Default for AccountDelegationStatus {
    fn default() -> (r: AccountDelegationStatus)
        ensures
            !r.delegated_on_base,
            r.account_on_er == AccountStatusOnEr::Missing,
    {
        AccountDelegationStatus {
            delegated_on_base: false,
            account_on_er: AccountStatusOnEr::Missing,
        }
    }
}

impl AccountDelegationStatus {
    /// Whether both sides say that the account is delegated.
    pub open spec fn ready(&self) -> bool {
        self.delegated_on_base && self.account_on_er is Delegated
    }

    /// Whether both sides say that the account is delegated. An account that the rollup does
    /// not have counts as not delegated.
    pub fn delegated_on_base_and_er(&self) -> (r: bool)
        ensures
            r == self.ready(),
    {
        self.delegated_on_base && self.account_on_er.is_delegated()
    }

    /// Why the account cannot be used as a delegated one, if it cannot.
    pub open spec fn reason(&self) -> Option<Seq<char>> {
        if !self.delegated_on_base {
            Some("not_delegated_on_base"@)
        } else {
            match self.account_on_er {
                AccountStatusOnEr::Missing => Some("delegated_on_base_missing_on_er"@),
                AccountStatusOnEr::Delegated => None,
                AccountStatusOnEr::NotDelegated => Some("delegated_on_base_not_delegated_on_er"@),
            }
        }
    }

    /// Why the account cannot be used as a delegated one, if it cannot.
    pub fn not_ready_reason(&self) -> (r: Option<&'static str>)
        ensures
            (r is None) == self.ready(),
            r matches Some(text) ==> Some(text@) == self.reason(),
            (r is None) == (self.reason() is None),
    {
        if !self.delegated_on_base {
            Some("not_delegated_on_base")
        } else {
            match self.account_on_er {
                AccountStatusOnEr::Missing => Some("delegated_on_base_missing_on_er"),
                AccountStatusOnEr::Delegated => None,
                AccountStatusOnEr::NotDelegated => Some("delegated_on_base_not_delegated_on_er"),
            }
        }
    }
}

/// What the rollup knows of the delegation of an account it has.
#[derive(Clone, Copy, Debug, PartialEq, Eq, Structural)]
pub struct AccountDelegationSession {
    /// Whether the chain does not decide on the account's state.
    pub locally_protected: bool,
    pub remote_slot: u64,
}

/// An account that is asked for, with the mode in which the rollup has it.
pub type AskedMode = (Pubkey, Option<AccountMode>);

/// Takes an account that the rollup does not have, or that is on its way back to the chain.
pub open spec fn pick_pending() -> spec_fn(AskedMode) -> Option<Pubkey> {
    |asked: AskedMode|
        if asked.1 is None || asked.1 == Some(AccountMode::Transient) {
            Some(asked.0)
        } else {
            None
        }
}

/// Which of the accounts have to be fetched before they can be used: those that the rollup
/// does not have and those on their way back to the chain, in the order in which they are
/// asked for.
pub fn ensure_accounts(asked: &Vec<AskedMode>) -> (r: Vec<Pubkey>)
    ensures
        r@ == picked(asked@, pick_pending()),
{
    let mut pending: Vec<Pubkey> = Vec::new();
    let mut i: usize = 0;
    while i < asked.len()
        invariant
            i <= asked@.len(),
            pending@ == picked(asked@.take(i as int), pick_pending()),
        decreases asked.len() - i,
    {
        proof {
            lemma_picked_step(asked@, i as int, pick_pending());
        }
        match asked[i].1 {
            None => pending.push(asked[i].0),
            Some(mode) => if mode == AccountMode::Transient {
                pending.push(asked[i].0);
            },
        }
        i = i + 1;
    }
    assert(asked@.take(asked@.len() as int) =~= asked@);
    pending
}

/// What the rollup knows of the delegation of an account it has in a mode since a slot.
pub open spec fn session_of(local: Option<(AccountMode, u64)>) -> Option<AccountDelegationSession> {
    match local {
        Some((mode, slot)) => Some(
            AccountDelegationSession {
                locally_protected: mode == AccountMode::Delegated || mode
                    == AccountMode::Transient,
                remote_slot: slot,
            },
        ),
        None => None,
    }
}

/// What the rollup knows of the delegation of accounts.
pub fn account_delegation_sessions(locals: &Vec<Option<(AccountMode, u64)>>) -> (r: Vec<
    Option<AccountDelegationSession>,
>)
    ensures
        r@.len() == locals@.len(),
        forall|i: int| 0 <= i < r@.len() ==> #[trigger] r@[i] == session_of(locals@[i]),
{
    let mut sessions: Vec<Option<AccountDelegationSession>> = Vec::new();
    let mut i: usize = 0;
    while i < locals.len()
        invariant
            i <= locals@.len(),
            sessions@.len() == i,
            forall|k: int| 0 <= k < i ==> #[trigger] sessions@[k] == session_of(locals@[k]),
        decreases locals.len() - i,
    {
        sessions.push(
            match locals[i] {
                Some((mode, slot)) => Some(
                    AccountDelegationSession {
                        locally_protected: mode == AccountMode::Delegated || mode
                            == AccountMode::Transient,
                        remote_slot: slot,
                    },
                ),
                None => None,
            },
        );
        i = i + 1;
    }
    sessions
}

/// What both sides say about the delegation of an account.
pub open spec fn status_of(
    remote: RemoteAccount,
    local: Option<(AccountMode, Pubkey)>,
) -> AccountDelegationStatus {
    AccountDelegationStatus {
        delegated_on_base: remote.owned_by_dlp(),
        account_on_er: match local {
            None => AccountStatusOnEr::Missing,
            Some((mode, owner)) => if mode == AccountMode::Delegated || owner.bytes
                == DLP_PROGRAM_ID {
                AccountStatusOnEr::Delegated
            } else {
                AccountStatusOnEr::NotDelegated
            },
        },
    }
}

/// What is said when the chain answers for another number of accounts than asked for.
pub open spec fn count_text(asked: nat, got: nat) -> Seq<char> {
    "expected "@ + decimal_text(asked) + " remote accounts, got "@ + decimal_text(got)
}

/// What both sides say about the delegation of accounts, given what the rollup has of each and
/// what the chain said, if the rollup follows a chain at all.
pub fn account_delegation_statuses(
    locals: &Vec<Option<(AccountMode, Pubkey)>>,
    remotes: &Option<Vec<RemoteAccount>>,
) -> (r: Result<Vec<AccountDelegationStatus>, ChainlinkError>)
    ensures
        match *remotes {
            None => r matches Ok(statuses) && statuses@.len() == locals@.len() && forall|i: int|
                0 <= i < statuses@.len() ==> (#[trigger] statuses@[i]) == (AccountDelegationStatus {
                    delegated_on_base: false,
                    account_on_er: AccountStatusOnEr::Missing,
                }),
            Some(remotes) => if remotes@.len() != locals@.len() {
                r matches Err(ChainlinkError::UnexpectedAccountCount(text)) && text@ == count_text(
                    locals@.len(),
                    remotes@.len(),
                )
            } else {
                r matches Ok(statuses) && statuses@.len() == locals@.len() && forall|i: int|
                    0 <= i < statuses@.len() ==> #[trigger] statuses@[i] == status_of(
                        remotes@[i],
                        locals@[i],
                    )
            },
        },
{
    let mut statuses: Vec<AccountDelegationStatus> = Vec::new();
    match remotes {
        None => {
            let mut i: usize = 0;
            while i < locals.len()
                invariant
                    i <= locals@.len(),
                    statuses@.len() == i,
                    forall|k: int|
                        0 <= k < i ==> (#[trigger] statuses@[k]) == (AccountDelegationStatus {
                            delegated_on_base: false,
                            account_on_er: AccountStatusOnEr::Missing,
                        }),
                decreases locals.len() - i,
            {
                statuses.push(AccountDelegationStatus::default());
                i = i + 1;
            }
            Ok(statuses)
        },
        Some(remotes) => {
            if remotes.len() != locals.len() {
                let asked = decimal(locals.len() as u64);
                let got = decimal(remotes.len() as u64);
                return Err(
                    ChainlinkError::UnexpectedAccountCount(
                        concat4(
                            "expected ",
                            asked.as_str(),
                            " remote accounts, got ",
                            got.as_str(),
                        ),
                    ),
                );
            }
            let mut i: usize = 0;
            while i < locals.len()
                invariant
                    i <= locals@.len(),
                    remotes@.len() == locals@.len(),
                    statuses@.len() == i,
                    forall|k: int|
                        0 <= k < i ==> #[trigger] statuses@[k] == status_of(remotes@[k], locals@[k]),
                decreases locals.len() - i,
            {
                let account_on_er = match locals[i] {
                    None => AccountStatusOnEr::Missing,
                    Some((mode, owner)) => if mode == AccountMode::Delegated || owner.is(
                        &DLP_PROGRAM_ID,
                    ) {
                        AccountStatusOnEr::Delegated
                    } else {
                        AccountStatusOnEr::NotDelegated
                    },
                };
                statuses.push(
                    AccountDelegationStatus {
                        delegated_on_base: remotes[i].is_owned_by_delegation_program(),
                        account_on_er,
                    },
                );
                i = i + 1;
            }
            Ok(statuses)
        },
    }
}

/// Of which accounts both sides say that they are delegated.
pub fn accounts_delegated_on_base_and_er(statuses: &Vec<AccountDelegationStatus>) -> (r: Vec<bool>)
    ensures
        r@.len() == statuses@.len(),
        forall|i: int| 0 <= i < r@.len() ==> #[trigger] r@[i] == statuses@[i].ready(),
{
    let mut ready: Vec<bool> = Vec::new();
    let mut i: usize = 0;
    while i < statuses.len()
        invariant
            i <= statuses@.len(),
            ready@.len() == i,
            forall|k: int| 0 <= k < i ==> #[trigger] ready@[k] == statuses@[k].ready(),
        decreases statuses.len() - i,
    {
        ready.push(statuses[i].delegated_on_base_and_er());
        i = i + 1;
    }
    ready
}

} // verus!
