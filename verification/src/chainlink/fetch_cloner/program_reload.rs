//! How a program is loaded anew after an update.
use vstd::prelude::*;
use crate::account::{Account, SubscriptionReason};
use crate::chainlink::errors::ChainlinkError;
use crate::chainlink::fetch_cloner::program_loader::{
    programdata_header, remember_program, ProgramVerifyState, PROGRAMDATA_HEADER_LEN,
};
use crate::chainlink::fetch_cloner::subscription::{program_data_releases, SubscriptionRelease};
use crate::chainlink::fetch_cloner::types::AccountWithCompanion;
use crate::cloner::LoadedProgram;
use crate::lru_map::{pushed, LruMap};
use crate::pubkey::Pubkey;

verus! {

/// A program that is loaded anew.
#[derive(Clone, Copy, Debug)]
pub struct ProgramReload {
    pub pubkey: Pubkey,
    /// The account that keeps its code if `of_loader_v3`.
    pub program_data: Pubkey,
    pub of_loader_v3: bool,
    /// Whether the code was subscribed to for this.
    pub acquired: bool,
}

/// What is needed to load a program.
#[derive(Debug)]
pub enum ReloadStep {
    /// The program has to be fetched with its code, as of this slot.
    Fetch { slot: u64 },
    /// The program keeps its code itself.
    Load { program: Account },
}

/// A program that can be loaded, with its code and its header where its code is in another
/// account.
#[derive(Debug)]
pub struct LoadableProgram {
    pub program: Account,
    pub program_data: Option<Account>,
    pub header: Option<Vec<u8>>,
}

impl ProgramReload {
    /// What is given back however the reload ends.
    pub open spec fn releases(&self) -> Seq<SubscriptionRelease> {
        if self.acquired {
            seq![
                SubscriptionRelease {
                    pubkey: self.program_data,
                    reason: SubscriptionReason::DirectAccount,
                },
                SubscriptionRelease {
                    pubkey: self.program_data,
                    reason: SubscriptionReason::ProgramData,
                },
            ]
        } else {
            Seq::empty()
        }
    }

    fn give_back(&self) -> (r: Vec<SubscriptionRelease>)
        ensures
            r@ == self.releases(),
    {
        if self.acquired {
            program_data_releases(self.program_data)
        } else {
            Vec::new()
        }
    }

    /// Tells what is needed to load the program of an update.
    pub fn start(&self, account: Account) -> (r: ReloadStep)
        ensures
            r == if self.of_loader_v3 {
                ReloadStep::Fetch { slot: account.slot }
            } else {
                ReloadStep::Load { program: account }
            },
    {
        if self.of_loader_v3 {
            ReloadStep::Fetch { slot: account.slot }
        } else {
            ReloadStep::Load { program: account }
        }
    }

    /// What a program can be loaded from that was fetched with its code. If that failed, the
    /// subscriptions are given back.
    pub fn fetched(&self, fetched: Result<AccountWithCompanion, ChainlinkError>) -> (r: Result<
        LoadableProgram,
        Vec<SubscriptionRelease>,
    >)
        ensures
            match fetched {
                Ok(pair) => {
                    &&& r matches Ok(loadable)
                    &&& loadable.program == pair.account
                    &&& loadable.program_data == pair.companion_account
                    &&& match pair.companion_account {
                        Some(code) => if code.data@.len() >= PROGRAMDATA_HEADER_LEN {
                            &&& loadable.header matches Some(header)
                            &&& header@ == code.data@.take(PROGRAMDATA_HEADER_LEN as int)
                        } else {
                            loadable.header is None
                        },
                        None => loadable.header is None,
                    }
                },
                Err(_) => r matches Err(releases) && releases@ == self.releases(),
            },
    {
        match fetched {
            Ok(pair) => {
                let header = match &pair.companion_account {
                    Some(code) => programdata_header(&code.data),
                    None => None,
                };
                Ok(
                    LoadableProgram {
                        program: pair.account,
                        program_data: pair.companion_account,
                        header,
                    },
                )
            },
            Err(_) => Err(self.give_back()),
        }
    }

    /// The program to clone. If it could not be loaded, the subscriptions are given back.
    pub fn loaded(&self, loaded: Result<LoadedProgram, ChainlinkError>) -> (r: Result<
        LoadedProgram,
        Vec<SubscriptionRelease>,
    >)
        ensures
            match loaded {
                Ok(program) => r == Ok::<LoadedProgram, Vec<SubscriptionRelease>>(program),
                Err(_) => r matches Err(releases) && releases@ == self.releases(),
            },
    {
        match loaded {
            Ok(program) => Ok(program),
            Err(_) => Err(self.give_back()),
        }
    }

    /// Ends the reload: the subscriptions are given back. A program is remembered only if it
    /// was cloned; otherwise the next update may try again at once.
    pub fn cloned(
        &self,
        cache: &mut LruMap<ProgramVerifyState>,
        header: Option<Vec<u8>>,
        is_cloned: bool,
        now: u64,
    ) -> (r: Vec<SubscriptionRelease>)
        requires
            old(cache).wf(),
        ensures
            r@ == self.releases(),
            final(cache).wf(),
            final(cache).capacity() == old(cache).capacity(),
            final(cache).entries() == if is_cloned {
                pushed(
                    old(cache).entries(),
                    old(cache).capacity(),
                    self.pubkey.bytes,
                    (ProgramVerifyState {
                        programdata_header: if self.of_loader_v3 {
                            header
                        } else {
                            None
                        },
                        verified_at: now,
                        deferred_verify: false,
                    }),
                )
            } else {
                old(cache).entries()
            },
    {
        if is_cloned {
            remember_program(cache, self.pubkey, self.of_loader_v3, header, now);
        }
        self.give_back()
    }
}

} // verus!
