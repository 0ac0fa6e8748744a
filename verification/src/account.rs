//! Accounts as they are seen on chain and kept locally.
use vstd::prelude::*;
use crate::program_ids::DLP_PROGRAM_ID;
use crate::pubkey::Pubkey;

verus! {

/// What a local account is to the rollup. An account has one mode at a time.
#[derive(Clone, Copy, Debug, PartialEq, Eq, Structural)]
pub enum AccountMode {
    /// A copy of what the chain holds.
    ReadOnly,
    /// The rollup runs it.
    Delegated,
    /// It is on its way back to the chain.
    Transient,
    /// It stands for an account that the chain does not have.
    Placeholder,
    /// It belongs to the rollup itself.
    Magic,
    /// It is confined to the rollup.
    Ephemeral,
}

/// An account with the slot at which its state was taken from the chain.
#[derive(Debug)]
pub struct Account {
    pub lamports: u64,
    pub data: Vec<u8>,
    pub owner: Pubkey,
    pub executable: bool,
    pub slot: u64,
    pub mode: AccountMode,
    /// Whether its delegation names no validator.
    pub confined: bool,
    /// Whether its state comes from a compressed account.
    pub compressed: bool,
}

impl Account {
    /// A plain account with nothing in it.
    pub fn new(lamports: u64, owner: Pubkey) -> (r: Account)
        ensures
            r.lamports == lamports,
            r.owner == owner,
            r.data@.len() == 0,
            !r.executable,
            r.slot == 0,
            r.mode == AccountMode::ReadOnly,
            !r.confined,
            !r.compressed,
    {
        Account {
            lamports,
            data: Vec::new(),
            owner,
            executable: false,
            slot: 0,
            mode: AccountMode::ReadOnly,
            confined: false,
            compressed: false,
        }
    }

    /// Whether the account is in `mode`.
    pub fn is(&self, mode: AccountMode) -> (r: bool)
        ensures
            r == (self.mode == mode),
    {
        self.mode == mode
    }

    /// Whether the delegation program owns the account.
    pub fn is_owned_by_dlp(&self) -> (r: bool)
        ensures
            r == (self.owner.bytes == DLP_PROGRAM_ID),
    {
        self.owner.is(&DLP_PROGRAM_ID)
    }

    /// The account, delegated or no longer so.
    pub open spec fn with_delegated(self, delegated: bool) -> Account {
        Account {
            mode: if delegated {
                AccountMode::Delegated
            } else if self.mode == AccountMode::Delegated {
                AccountMode::ReadOnly
            } else {
                self.mode
            },
            ..self
        }
    }

    /// Marks the account as delegated or as no longer so.
    pub fn set_delegated(&mut self, delegated: bool)
        ensures
            *final(self) == old(self).with_delegated(delegated),
    {
        if delegated {
            self.mode = AccountMode::Delegated;
        } else if self.mode == AccountMode::Delegated {
            self.mode = AccountMode::ReadOnly;
        }
    }
}

/// Where the state of an account was found.
#[derive(Debug)]
pub enum ResolvedAccount {
    /// On chain.
    Fresh(Account),
    /// In the bank, under this address since this slot.
    Bank(Pubkey, u64),
}

/// What the chain said about an account.
#[derive(Debug)]
pub enum RemoteAccount {
    /// There is none at this slot.
    NotFound(u64),
    Found(ResolvedAccount),
}

impl RemoteAccount {
    /// Whether the chain said that the delegation program owns the account.
    pub open spec fn owned_by_dlp(&self) -> bool {
        self matches RemoteAccount::Found(ResolvedAccount::Fresh(account)) && account.owner.bytes
            == DLP_PROGRAM_ID
    }

    /// Whether the chain said that the delegation program owns the account.
    pub fn is_owned_by_delegation_program(&self) -> (r: bool)
        ensures
            r == self.owned_by_dlp(),
    {
        match self {
            RemoteAccount::Found(ResolvedAccount::Fresh(account)) => account.is_owned_by_dlp(),
            _ => false,
        }
    }

    /// The slot as of which this is known.
    pub fn slot(&self) -> (r: u64)
        ensures
            r == match *self {
                RemoteAccount::NotFound(slot) => slot,
                RemoteAccount::Found(ResolvedAccount::Fresh(account)) => account.slot,
                RemoteAccount::Found(ResolvedAccount::Bank(_, slot)) => slot,
            },
    {
        match self {
            RemoteAccount::NotFound(slot) => *slot,
            RemoteAccount::Found(ResolvedAccount::Fresh(account)) => account.slot,
            RemoteAccount::Found(ResolvedAccount::Bank(_, slot)) => *slot,
        }
    }

    /// The state that the chain gave.
    pub fn fresh_account(&self) -> (r: Option<&Account>)
        ensures
            match *self {
                RemoteAccount::Found(ResolvedAccount::Fresh(account)) => {
                    r matches Some(found) && *found == account
                },
                _ => r is None,
            },
    {
        match self {
            RemoteAccount::Found(ResolvedAccount::Fresh(account)) => Some(account),
            _ => None,
        }
    }
}

/// What the bank says about an account it holds.
#[derive(Clone, Copy, Debug)]
pub struct BankAccount {
    pub owner: Pubkey,
    pub lamports: u64,
    pub slot: u64,
    pub delegated: bool,
    pub undelegating: bool,
}

/// Why an account is subscribed to.
#[derive(Clone, Copy, Debug, PartialEq, Eq, Structural)]
pub enum SubscriptionReason {
    DirectAccount,
    DelegationRecord,
    ProgramData,
    AtaProjection,
    UndelegationTracking,
}

/// Where an update of an account came from.
#[derive(Clone, Copy, Debug, PartialEq, Eq, Structural)]
pub enum SubscriptionSource {
    /// A subscription to the account.
    Account,
    /// A subscription to the program that owns it.
    Program,
}

/// The later of two slots.
pub fn later(a: u64, b: u64) -> (r: u64)
    ensures
        r == if a >= b {
            a
        } else {
            b
        },
{
    if a >= b {
        a
    } else {
        b
    }
}

/// The slot that an account has to be read at: its own, or a later one that is asked for.
pub open spec fn slot_for(min_context_slot: Option<u64>, account_slot: u64) -> u64 {
    match min_context_slot {
        Some(min) => if min >= account_slot {
            min
        } else {
            account_slot
        },
        None => account_slot,
    }
}

/// The slot that an account has to be read at.
pub fn effective_slot(min_context_slot: Option<u64>, account_slot: u64) -> (r: u64)
    ensures
        r == slot_for(min_context_slot, account_slot),
{
    match min_context_slot {
        Some(min) => later(min, account_slot),
        None => account_slot,
    }
}

/// The slot that a request for `slot` has to be read at, given the newest slot of the chain.
pub fn min_context_slot(slot: Option<u64>, chain_slot: u64) -> (r: Option<u64>)
    ensures
        r == match slot {
            Some(slot) => Some(
                if slot >= chain_slot {
                    slot
                } else {
                    chain_slot
                },
            ),
            None => None,
        },
{
    match slot {
        Some(slot) => Some(later(slot, chain_slot)),
        None => None,
    }
}

} // verus!
