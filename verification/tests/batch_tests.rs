//! Whole batches against a chain and a bank of the test's own.
use magicblock_chainlink::account::{
    Account, AccountMode, BankAccount, RemoteAccount, ResolvedAccount,
};
use magicblock_chainlink::chainlink::errors::ChainlinkError;
use magicblock_chainlink::chainlink::fetch_cloner::batch_stages::{
    accounts_to_refetch, batch_subscriptions, program_data_of, BatchFetch,
};
use magicblock_chainlink::chainlink::fetch_cloner::cancel::CancelStrategy;
use magicblock_chainlink::chainlink::fetch_cloner::fetching::resolve_account_with_companion;
use magicblock_chainlink::chainlink::fetch_cloner::pending::{
    complete_fetches, plan_fetches, AskedAccount, PendingTable,
};
use magicblock_chainlink::chainlink::fetch_cloner::types::{
    AccountWithCompanion, FetchAndCloneResult,
};
use magicblock_chainlink::program_ids::DLP_PROGRAM_ID;
use magicblock_chainlink::pubkey::Pubkey;

const CURRENT_SLOT: u64 = 100;

fn key(n: u8) -> Pubkey {
    Pubkey::new([n; 32])
}

fn dlp() -> Pubkey {
    Pubkey::new(DLP_PROGRAM_ID)
}

fn address(pubkey: Pubkey) -> solana_pubkey::Pubkey {
    solana_pubkey::Pubkey::new_from_array(pubkey.bytes)
}

fn record_pda(account: Pubkey) -> Pubkey {
    Pubkey::new(
        dlp_api::pda::delegation_record_pda_from_delegated_account(&address(account)).to_bytes(),
    )
}

fn copy(account: &Account) -> Account {
    let mut copied = Account::new(account.lamports, account.owner);
    copied.data = account.data.clone();
    copied.executable = account.executable;
    copied.slot = account.slot;
    copied.mode = account.mode;
    copied
}

fn account(lamports: u64, data: Vec<u8>, owner: Pubkey) -> Account {
    let mut account = Account::new(lamports, owner);
    account.data = data;
    account.slot = CURRENT_SLOT;
    account
}

fn record_account(authority: Pubkey, owner: Pubkey) -> Account {
    let record = dlp_api::state::DelegationRecord {
        authority: address(authority),
        owner: address(owner),
        delegation_slot: 1,
        lamports: 1_000,
        commit_frequency_ms: 2_000,
    };
    let mut data = vec![0; dlp_api::state::DelegationRecord::size_with_discriminator()];
    record.to_bytes_with_discriminator(&mut data).unwrap();
    account(1_000, data, dlp())
}

/// The chain, the bank and what is watched.
struct World {
    validator: Pubkey,
    chain: Vec<(Pubkey, Account)>,
    bank: Vec<(Pubkey, Account)>,
    watched: Vec<Pubkey>,
}

fn find(accounts: &[(Pubkey, Account)], pubkey: &Pubkey) -> Option<Account> {
    accounts.iter().find(|(found, _)| found == pubkey).map(|(_, account)| copy(account))
}

impl World {
    fn new(chain: Vec<(Pubkey, Account)>) -> Self {
        Self { validator: key(200), chain, bank: vec![], watched: vec![] }
    }

    /// The chain does not give what it has only as of an older slot.
    fn remote(&self, pubkey: &Pubkey) -> RemoteAccount {
        match find(&self.chain, pubkey) {
            Some(account) if account.slot >= CURRENT_SLOT => {
                RemoteAccount::Found(ResolvedAccount::Fresh(account))
            }
            _ => RemoteAccount::NotFound(CURRENT_SLOT),
        }
    }

    fn with_record(&mut self, pubkey: Pubkey) -> Result<AccountWithCompanion, ChainlinkError> {
        let record = record_pda(pubkey);
        self.watch(record);
        resolve_account_with_companion(
            pubkey,
            record,
            self.remote(&pubkey),
            self.remote(&record),
            None,
            None,
        )
    }

    fn watch(&mut self, pubkey: Pubkey) {
        if !self.watched.contains(&pubkey) {
            self.watched.push(pubkey);
        }
    }

    fn cancel(&mut self, strategy: CancelStrategy) {
        let cancelled = strategy.subs_to_cancel();
        self.watched.retain(|pubkey| !cancelled.contains(pubkey));
    }

    fn fetch_and_clone(
        &mut self,
        pubkeys: Vec<Pubkey>,
        mark_empty: Option<Vec<Pubkey>>,
    ) -> Result<FetchAndCloneResult, ChainlinkError> {
        let existing_subs = batch_subscriptions(&pubkeys)
            .into_iter()
            .filter(|pubkey| self.watched.contains(pubkey))
            .collect();
        let mut accounts = vec![];
        for pubkey in &pubkeys {
            self.watch(*pubkey);
            let marked = mark_empty.as_ref().is_some_and(|marked| marked.contains(pubkey));
            accounts.push(match self.remote(pubkey) {
                RemoteAccount::NotFound(slot) if marked => {
                    let mut empty = account(0, vec![], Pubkey::zero());
                    empty.slot = slot;
                    RemoteAccount::Found(ResolvedAccount::Fresh(empty))
                }
                account => account,
            });
        }
        let start = BatchFetch { pubkeys, existing_subs };
        let (stage, in_bank) = start.fetched(accounts, mark_empty.as_ref());
        assert!(in_bank.is_empty());
        assert!(accounts_to_refetch(&vec![]).is_empty());
        let (stage, to_read) = stage.refetched(vec![], None);
        let pairs = to_read.into_iter().map(|(pubkey, _)| self.with_record(pubkey)).collect();
        let (stage, work) = match stage.delegated(pairs, &self.validator) {
            Ok(next) => next,
            Err((error, cancel)) => {
                self.cancel(cancel);
                return Err(error);
            }
        };
        assert!(work.with_program_data.is_empty() && work.single.is_empty());
        let code = program_data_of(&vec![]);
        let (stage, cancel, clones) = match stage.programs(&code, vec![]) {
            Ok(next) => next,
            Err((error, _)) => return Err(error),
        };
        self.cancel(cancel);
        for request in clones.accounts {
            self.bank.retain(|(pubkey, _)| *pubkey != request.pubkey);
            self.bank.push((request.pubkey, request.account));
        }
        stage.cloned(Ok(()))
    }

    fn add_record(&mut self, pubkey: Pubkey, authority: Pubkey, owner: Pubkey) -> Pubkey {
        self.chain.push((record_pda(pubkey), record_account(authority, owner)));
        record_pda(pubkey)
    }

    fn set_slot(&mut self, pubkey: &Pubkey, slot: u64) {
        for (found, account) in &mut self.chain {
            if found == pubkey {
                account.slot = slot;
            }
        }
    }

    fn assert_cloned(&self, pubkey: Pubkey, from: &Account, owner: Pubkey, mode: AccountMode) {
        let cloned = find(&self.bank, &pubkey).unwrap();
        assert_eq!(cloned.lamports, from.lamports);
        assert_eq!(cloned.data, from.data);
        assert_eq!(cloned.owner, owner);
        assert_eq!(cloned.slot, CURRENT_SLOT);
        assert_eq!(cloned.mode, mode);
    }
}

#[test]
fn test_fetch_and_clone_single_non_delegated_account() {
    let from = account(1_000_000, vec![1, 2, 3, 4], key(2));
    let mut world = World::new(vec![(key(1), copy(&from))]);
    assert!(world.fetch_and_clone(vec![key(1)], None).is_ok());
    world.assert_cloned(key(1), &from, key(2), AccountMode::ReadOnly);
}

#[test]
fn test_fetch_and_clone_single_non_existing_account() {
    let mut world = World::new(vec![]);
    assert!(world.fetch_and_clone(vec![key(1)], None).is_ok());
    assert!(world.bank.is_empty());
}

#[test]
fn test_fetch_and_clone_single_delegated_account_with_valid_delegation_record() {
    let from = account(1_234, vec![1, 2, 3, 4], dlp());
    let mut world = World::new(vec![(key(1), copy(&from))]);
    let record = world.add_record(key(1), world.validator, key(2));
    assert!(world.fetch_and_clone(vec![key(1)], None).is_ok());
    world.assert_cloned(key(1), &from, key(2), AccountMode::Delegated);
    assert!(find(&world.bank, &record).is_none());
    assert!(!world.watched.contains(&key(1)) && !world.watched.contains(&record));
}

#[test]
fn test_fetch_and_clone_single_delegated_account_with_different_authority() {
    let from = account(1_234, vec![1, 2, 3, 4], dlp());
    let mut world = World::new(vec![(key(1), copy(&from))]);
    let record = world.add_record(key(1), key(3), key(2));
    assert!(world.fetch_and_clone(vec![key(1)], None).is_ok());
    world.assert_cloned(key(1), &from, key(2), AccountMode::ReadOnly);
    assert!(find(&world.bank, &record).is_none());
    assert!(world.watched.contains(&key(1)));
    assert!(!world.watched.contains(&record));
}

#[test]
fn test_fetch_and_clone_single_delegated_account_without_delegation_record_that_has_sub() {
    let from = account(1_234, vec![1, 2, 3, 4], dlp());
    let mut world = World::new(vec![(key(1), copy(&from))]);
    let record = world.add_record(key(1), world.validator, key(2));
    assert!(world.fetch_and_clone(vec![record], None).is_ok());
    assert!(find(&world.bank, &record).is_some());
    assert!(world.fetch_and_clone(vec![key(1)], None).is_ok());
    world.assert_cloned(key(1), &from, key(2), AccountMode::Delegated);
    assert!(find(&world.bank, &record).is_some());
    assert!(world.watched.contains(&record));
    assert!(!world.watched.contains(&key(1)));
}

#[test]
fn test_fetch_and_clone_multiple_accounts_mixed_types() {
    let plain = account(500_000, vec![10, 20, 30], key(2));
    let delegated = account(1_000_000, vec![1, 2, 3, 4], dlp());
    let unrecorded = account(2_000_000, vec![100, 101, 102], dlp());
    let mut world = World::new(vec![
        (key(11), copy(&plain)),
        (key(12), copy(&delegated)),
        (key(13), copy(&unrecorded)),
    ]);
    world.add_record(key(12), world.validator, key(2));
    assert!(world.fetch_and_clone(vec![key(11), key(12), key(13)], None).is_ok());
    world.assert_cloned(key(11), &plain, key(2), AccountMode::ReadOnly);
    world.assert_cloned(key(12), &delegated, key(2), AccountMode::Delegated);
    world.assert_cloned(key(13), &unrecorded, dlp(), AccountMode::ReadOnly);
    assert_eq!(world.watched, vec![key(11), key(13)]);
}

#[test]
fn test_fetch_and_clone_valid_delegated_account_and_account_with_invalid_delegation_record() {
    let mut world = World::new(vec![
        (key(11), account(1_000_000, vec![1, 2, 3, 4], dlp())),
        (key(12), account(500_000, vec![5, 6, 7, 8], dlp())),
    ]);
    world.add_record(key(11), world.validator, key(2));
    world.chain.push((record_pda(key(12)), account(1_000, vec![1, 2, 3], dlp())));
    assert!(matches!(
        world.fetch_and_clone(vec![key(11), key(12)], None),
        Err(ChainlinkError::InvalidDelegationRecord(_, _))
    ));
    assert!(world.bank.is_empty());
    assert!(!world.watched.contains(&key(11)) && !world.watched.contains(&key(12)));
}

#[test]
fn test_deleg_record_stale() {
    let mut world = World::new(vec![(key(1), account(1_000_000, vec![1, 2, 3, 4], dlp()))]);
    let record = world.add_record(key(1), world.validator, key(2));
    world.set_slot(&record, CURRENT_SLOT - 10);
    let result = world.fetch_and_clone(vec![key(1)], None).unwrap();
    assert_eq!(result.missing_delegation_record, vec![(key(1), CURRENT_SLOT)]);
    world.set_slot(&record, CURRENT_SLOT);
    let result = world.fetch_and_clone(vec![key(1)], None).unwrap();
    assert!(result.is_ok());
}

#[test]
fn test_account_stale() {
    let mut world = World::new(vec![(key(1), account(1_000_000, vec![1, 2, 3, 4], dlp()))]);
    world.set_slot(&key(1), CURRENT_SLOT - 10);
    world.add_record(key(1), world.validator, key(2));
    let result = world.fetch_and_clone(vec![key(1)], None).unwrap();
    assert_eq!(result.not_found_on_chain, vec![(key(1), CURRENT_SLOT)]);
    world.set_slot(&key(1), CURRENT_SLOT);
    let result = world.fetch_and_clone(vec![key(1)], None).unwrap();
    assert!(result.is_ok());
}

#[test]
fn test_fetch_with_some_acounts_marked_as_empty_if_not_found() {
    let from = account(1_000_000, vec![1, 2, 3, 4], key(2));
    let mut world = World::new(vec![(key(11), copy(&from))]);
    let result = world
        .fetch_and_clone(vec![key(11), key(12), key(13)], Some(vec![key(12)]))
        .unwrap();
    assert_eq!(result.not_found_on_chain, vec![(key(13), CURRENT_SLOT)]);
    world.assert_cloned(key(11), &from, key(2), AccountMode::ReadOnly);
    assert!(find(&world.bank, &key(13)).is_none());
    let empty = account(0, vec![], Pubkey::zero());
    world.assert_cloned(key(12), &empty, Pubkey::zero(), AccountMode::ReadOnly);
    assert!(world.watched.contains(&key(12)));
}

/// What a task asks for whose first waiter has this number.
fn asked(pubkeys: &[Pubkey], bank: &[Pubkey], first_waiter: u64) -> Vec<AskedAccount> {
    let held = |pubkey: &Pubkey| {
        bank.contains(pubkey).then(|| BankAccount {
            owner: key(2),
            lamports: 1,
            slot: CURRENT_SLOT,
            delegated: false,
            undelegating: false,
        })
    };
    (first_waiter..)
        .zip(pubkeys)
        .map(|(waiter, pubkey)| AskedAccount {
            pubkey: *pubkey,
            in_bank: held(pubkey),
            is_watching: bank.contains(pubkey),
            waiter,
        })
        .collect()
}

#[test]
fn test_fetch_and_clone_with_dedup_concurrent_requests() {
    let mut pending = PendingTable::new();
    let first = plan_fetches(&mut pending, &asked(&[key(1)], &[], 10), &vec![]);
    let second = plan_fetches(&mut pending, &asked(&[key(1)], &[], 20), &vec![]);
    assert_eq!(first.fetch_new, vec![key(1)]);
    assert!(second.fetch_new.is_empty());
    assert_eq!(second.await_pending, vec![(key(1), 20)]);
    assert_eq!(complete_fetches(&mut pending, &first.fetch_new), vec![20]);
}

#[test]
fn test_parallel_fetch_prevention_multiple_accounts() {
    let mut pending = PendingTable::new();
    let all = [key(1), key(2), key(3)];
    let first = plan_fetches(&mut pending, &asked(&all, &[], 10), &vec![]);
    let second = plan_fetches(&mut pending, &asked(&all[..2], &[], 20), &vec![]);
    let third = plan_fetches(&mut pending, &asked(&all[1..], &[], 30), &vec![]);
    assert_eq!(first.fetch_new, all.to_vec());
    assert!(second.fetch_new.is_empty() && third.fetch_new.is_empty());
    assert_eq!(second.await_pending, vec![(key(1), 20), (key(2), 21)]);
    assert_eq!(third.await_pending, vec![(key(2), 30), (key(3), 31)]);
    assert_eq!(complete_fetches(&mut pending, &first.fetch_new), vec![20, 21, 30, 31]);
    let later = plan_fetches(&mut pending, &asked(&all, &all, 40), &vec![]);
    assert!(later.fetch_new.is_empty() && later.await_pending.is_empty());
}
