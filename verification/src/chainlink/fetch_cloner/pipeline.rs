//! The steps from fetched accounts to clone requests.
use vstd::prelude::*;
use crate::account::{
    effective_slot, later, slot_for, Account, AccountMode, RemoteAccount, ResolvedAccount,
    SubscriptionReason,
};
use crate::chainlink::errors::{error_texts, join_errors, ChainlinkError};
use crate::chainlink::fetch_cloner::delegation::{
    account_with_record, apply_delegation_record_to_account, delegated_to_other,
    get_delegated_to_other, is_raw_eata_account, parse_delegation_record, parse_raw_eata_pda,
    record_commit_frequency, record_parse,
};
use crate::chainlink::fetch_cloner::fetching::{paired, resolve_account_with_companion};
use crate::chainlink::fetch_cloner::rules::{is_program_allowed, program_allowed};
use crate::chainlink::fetch_cloner::subscription::{
    append_releases, released, SubscriptionRelease,
};
use crate::chainlink::fetch_cloner::types::{
    AccountWithCompanion, AtaAccount, AtaInfo, ClassifiedAccounts, PartitionedNotFound,
    ResolvedDelegatedAccounts, ResolvedPrograms,
};
use crate::cloner::{
    AccountCloneRequest, AccountMeta, ClonePostDelegationMode, DelegationActions, Instruction,
    LoadedProgram,
};
use crate::delegation_record::{is_record, DelegationRecord};
use crate::lists::{lemma_picked_contains, lemma_picked_step, picked, take_at};
use crate::pda::{
    delegation_record_address, delegation_record_pda, program_data_address, program_data_pda,
};
use crate::program_ids::{
    ASSOCIATED_TOKEN_PROGRAM_ID, DLP_PROGRAM_ID, LOADER_V3_ID, NATIVE_LOADER_ID,
    TOKEN_2022_PROGRAM_ID, TOKEN_PROGRAM_ID,
};
use crate::pubkey::{
    contains_key, distinct_keys, extend_distinct, insert_key, lemma_distinct_keys, Pubkey,
};
use crate::text::{concat4, decimal, decimal_text, joined};

verus! {

/// A fetched account under its address. `ata` says what it is a token account of, if it is one.
#[derive(Debug)]
pub struct FetchedAccount {
    pub pubkey: Pubkey,
    pub account: RemoteAccount,
    pub ata: Option<AtaInfo>,
}

/// What a fetched account is.
#[derive(Clone, Copy, Debug, PartialEq, Eq, Structural)]
pub enum AccountClass {
    /// The chain does not have it.
    Missing,
    /// The delegation program owns it.
    OwnedByDlp,
    /// A program that can be cloned.
    Program,
    /// A token account.
    Ata,
    /// Any other account.
    Plain,
    /// An account of the native loader, or one that was not fetched since the bank has it.
    Ignored,
}

impl FetchedAccount {
    /// What the account is: the owner decides before the executable flag, and that before
    /// whether it is a token account.
    pub open spec fn class(&self) -> AccountClass {
        match self.account {
            RemoteAccount::NotFound(_) => AccountClass::Missing,
            RemoteAccount::Found(ResolvedAccount::Bank(_, _)) => AccountClass::Ignored,
            RemoteAccount::Found(ResolvedAccount::Fresh(account)) => if account.owner.bytes
                == DLP_PROGRAM_ID {
                AccountClass::OwnedByDlp
            } else if account.executable {
                if account.owner.bytes == NATIVE_LOADER_ID {
                    AccountClass::Ignored
                } else {
                    AccountClass::Program
                }
            } else if self.ata is Some {
                AccountClass::Ata
            } else {
                AccountClass::Plain
            },
        }
    }

    /// The state that the chain holds.
    pub open spec fn state(&self) -> Account {
        self.account->Found_0->Fresh_0
    }
}

/// A request that takes the account as it is.
pub open spec fn plain_request(pubkey: Pubkey, account: Account) -> AccountCloneRequest {
    AccountCloneRequest {
        pubkey,
        account,
        commit_frequency_ms: None,
        post_delegation_mode: ClonePostDelegationMode::Plain,
        delegated_to_other: None,
        source_slots: None,
    }
}

/// Picks the accounts that the chain does not have.
pub open spec fn pick_missing() -> spec_fn(FetchedAccount) -> Option<(Pubkey, u64)> {
    |fetched: FetchedAccount|
        if fetched.class() == AccountClass::Missing {
            Some((fetched.pubkey, fetched.account->NotFound_0))
        } else {
            None
        }
}

/// Picks the accounts that are taken as they are.
pub open spec fn pick_plain() -> spec_fn(FetchedAccount) -> Option<AccountCloneRequest> {
    |fetched: FetchedAccount|
        if fetched.class() == AccountClass::Plain {
            Some(plain_request(fetched.pubkey, fetched.state()))
        } else {
            None
        }
}

/// Picks the accounts of one class with their slots.
pub open spec fn pick_class(class: AccountClass) -> spec_fn(FetchedAccount) -> Option<
    (Pubkey, Account, u64),
> {
    |fetched: FetchedAccount|
        if fetched.class() == class {
            Some((fetched.pubkey, fetched.state(), fetched.state().slot))
        } else {
            None
        }
}

/// Picks the token accounts.
pub open spec fn pick_atas() -> spec_fn(FetchedAccount) -> Option<AtaAccount> {
    |fetched: FetchedAccount|
        if fetched.class() == AccountClass::Ata {
            Some(
                AtaAccount {
                    pubkey: fetched.pubkey,
                    account: fetched.state(),
                    info: fetched.ata->0,
                    slot: fetched.state().slot,
                },
            )
        } else {
            None
        }
}

impl ClassifiedAccounts {
    /// Whether the lists hold exactly what they should of `fetched`, each in its order.
    pub open spec fn classifies(&self, fetched: Seq<FetchedAccount>) -> bool {
        &&& self.not_found@ == picked(fetched, pick_missing())
        &&& self.plain@ == picked(fetched, pick_plain())
        &&& self.owned_by_deleg@ == picked(fetched, pick_class(AccountClass::OwnedByDlp))
        &&& self.programs@ == picked(fetched, pick_class(AccountClass::Program))
        &&& self.atas@ == picked(fetched, pick_atas())
    }
}

/// Sorts fetched accounts by what has to be done with them.
pub fn classify_remote_accounts(fetched: Vec<FetchedAccount>) -> (r: ClassifiedAccounts)
    ensures
        r.classifies(fetched@),
{
    let mut r = ClassifiedAccounts {
        not_found: Vec::new(),
        plain: Vec::new(),
        owned_by_deleg: Vec::new(),
        programs: Vec::new(),
        atas: Vec::new(),
    };
    let ghost all = fetched@;
    assert(r.classifies(all.take(0)));
    for item in it: fetched
        invariant
            it.seq() == all,
            r.classifies(all.take(it.index() as int)),
    {
        let ghost i = it.index() as int;
        let ghost before = r;
        proof {
            lemma_picked_step(all, i, pick_missing());
            lemma_picked_step(all, i, pick_plain());
            lemma_picked_step(all, i, pick_class(AccountClass::OwnedByDlp));
            lemma_picked_step(all, i, pick_class(AccountClass::Program));
            lemma_picked_step(all, i, pick_atas());
        }
        classify_single_account(item, &mut r);
    }
    assert(all.take(all.len() as int) =~= all);
    r
}

/// The list with the item if there is one.
pub open spec fn extended<B>(list: Seq<B>, item: Option<B>) -> Seq<B> {
    match item {
        Some(item) => list.push(item),
        None => list,
    }
}

/// Puts a fetched account into the list where it belongs, if it belongs in one.
pub fn classify_single_account(fetched: FetchedAccount, lists: &mut ClassifiedAccounts)
    ensures
        final(lists).not_found@ == extended(old(lists).not_found@, pick_missing()(fetched)),
        final(lists).plain@ == extended(old(lists).plain@, pick_plain()(fetched)),
        final(lists).owned_by_deleg@ == extended(
            old(lists).owned_by_deleg@,
            pick_class(AccountClass::OwnedByDlp)(fetched),
        ),
        final(lists).programs@ == extended(
            old(lists).programs@,
            pick_class(AccountClass::Program)(fetched),
        ),
        final(lists).atas@ == extended(old(lists).atas@, pick_atas()(fetched)),
{
    let pubkey = fetched.pubkey;
    match fetched.account {
        RemoteAccount::NotFound(slot) => {
            lists.not_found.push((pubkey, slot));
        },
        RemoteAccount::Found(ResolvedAccount::Bank(_, _)) => {},
        RemoteAccount::Found(ResolvedAccount::Fresh(account)) => {
            let slot = account.slot;
            if account.is_owned_by_dlp() {
                lists.owned_by_deleg.push((pubkey, account, slot));
            } else if account.executable {
                classify_program(pubkey, account, slot, &mut lists.programs);
            } else {
                match fetched.ata {
                    Some(info) => lists.atas.push(AtaAccount { pubkey, account, info, slot }),
                    None => lists.plain.push(AccountCloneRequest::plain(pubkey, account)),
                }
            }
        },
    }
}

/// Adds a program to the list, unless it belongs to the native loader, whose programs are not
/// cloned.
fn classify_program(
    pubkey: Pubkey,
    account: Account,
    slot: u64,
    programs: &mut Vec<(Pubkey, Account, u64)>,
)
    ensures
        final(programs)@ == if account.owner.bytes == NATIVE_LOADER_ID {
            old(programs)@
        } else {
            old(programs)@.push((pubkey, account, slot))
        },
{
    if !account.owner.is(&NATIVE_LOADER_ID) {
        programs.push((pubkey, account, slot));
    }
}

/// Picks the accounts that are marked, or those that are not.
pub open spec fn pick_marked(mark_empty: Option<Seq<Pubkey>>, marked: bool) -> spec_fn(
    (Pubkey, u64),
) -> Option<(Pubkey, u64)> {
    |entry: (Pubkey, u64)|
        if (mark_empty matches Some(keys) && keys.contains(entry.0)) == marked {
            Some(entry)
        } else {
            None
        }
}

/// The addresses of a list that may be missing.
pub open spec fn keys_view(keys: Option<&Vec<Pubkey>>) -> Option<Seq<Pubkey>> {
    match keys {
        Some(keys) => Some(keys@),
        None => None,
    }
}

/// Parts the accounts that the chain does not have into those that an empty account takes the
/// place of, because they are marked, and the others.
pub fn partition_not_found(
    mark_empty_if_not_found: Option<&Vec<Pubkey>>,
    not_found: Vec<(Pubkey, u64)>,
) -> (r: PartitionedNotFound)
    ensures
        r.clone_as_empty@ == picked(
            not_found@,
            pick_marked(keys_view(mark_empty_if_not_found), true),
        ),
        r.not_found@ == picked(
            not_found@,
            pick_marked(keys_view(mark_empty_if_not_found), false),
        ),
{
    let mut marked: Vec<(Pubkey, u64)> = Vec::new();
    let mut others: Vec<(Pubkey, u64)> = Vec::new();
    let ghost all = not_found@;
    let ghost keys = keys_view(mark_empty_if_not_found);
    for entry in it: not_found
        invariant
            it.seq() == all,
            keys == keys_view(mark_empty_if_not_found),
            marked@ == picked(all.take(it.index() as int), pick_marked(keys, true)),
            others@ == picked(all.take(it.index() as int), pick_marked(keys, false)),
    {
        proof {
            lemma_picked_step(all, it.index() as int, pick_marked(keys, true));
            lemma_picked_step(all, it.index() as int, pick_marked(keys, false));
        }
        let is_marked = match mark_empty_if_not_found {
            Some(keys) => contains_key(keys, &entry.0),
            None => false,
        };
        if is_marked {
            marked.push(entry);
        } else {
            others.push(entry);
        }
    }
    assert(all.take(all.len() as int) =~= all);
    PartitionedNotFound { clone_as_empty: marked, not_found: others }
}

/// The addresses of accounts.
pub open spec fn account_keys(accounts: Seq<(Pubkey, Account, u64)>) -> Seq<Pubkey> {
    accounts.map_values(|entry: (Pubkey, Account, u64)| entry.0)
}

/// The addresses of accounts.
pub fn collect_account_keys(accounts: &Vec<(Pubkey, Account, u64)>) -> (r: Vec<Pubkey>)
    ensures
        r@ == account_keys(accounts@),
{
    let mut keys: Vec<Pubkey> = Vec::new();
    let mut i: usize = 0;
    while i < accounts.len()
        invariant
            i <= accounts.len(),
            keys@.len() == i,
            forall|j: int| 0 <= j < i ==> keys@[j] == accounts@[j].0,
        decreases accounts.len() - i,
    {
        keys.push(accounts[i].0);
        i = i + 1;
    }
    assert(keys@ =~= account_keys(accounts@));
    keys
}

/// Whether `records` are the addresses of the delegation records of `keys`.
pub open spec fn record_addresses(keys: Seq<Pubkey>, records: Seq<Pubkey>) -> bool {
    &&& records.len() == keys.len()
    &&& forall|i: int|
        0 <= i < keys.len() ==> (#[trigger] records[i])@ == delegation_record_address(keys[i]@)
}

/// The addresses of the delegation records of accounts.
pub fn delegation_record_subs(keys: &Vec<Pubkey>) -> (r: Vec<Pubkey>)
    ensures
        record_addresses(keys@, r@),
{
    let mut records: Vec<Pubkey> = Vec::new();
    let mut i: usize = 0;
    while i < keys.len()
        invariant
            i <= keys.len(),
            records@.len() == i,
            forall|j: int|
                0 <= j < i ==> (#[trigger] records@[j])@ == delegation_record_address(keys@[j]@),
        decreases keys.len() - i,
    {
        records.push(delegation_record_pda(&keys[i]));
        i = i + 1;
    }
    records
}

/// What is given back if the delegation records of accounts could not be had or read: the
/// accounts, for being asked for and for being fetched with their records, and the records.
pub open spec fn failed_record_releases(keys: Seq<Pubkey>, records: Seq<Pubkey>) -> Seq<
    SubscriptionRelease,
> {
    released(keys, SubscriptionReason::DirectAccount) + released(
        keys,
        SubscriptionReason::DirectAccount,
    ) + released(records, SubscriptionReason::DirectAccount) + released(
        records,
        SubscriptionReason::DelegationRecord,
    )
}

fn release_failed_records(keys: &Vec<Pubkey>, records: &Vec<Pubkey>) -> (r: Vec<
    SubscriptionRelease,
>)
    ensures
        r@ == failed_record_releases(keys@, records@),
{
    let mut releases: Vec<SubscriptionRelease> = Vec::new();
    append_releases(&mut releases, keys, SubscriptionReason::DirectAccount);
    append_releases(&mut releases, keys, SubscriptionReason::DirectAccount);
    append_releases(&mut releases, records, SubscriptionReason::DirectAccount);
    append_releases(&mut releases, records, SubscriptionReason::DelegationRecord);
    assert(releases@ =~= failed_record_releases(keys@, records@));
    releases
}

/// A delegated account with what was read from its record, if there is one. `derived_eata` is
/// the address derived of the wallet and the mint that its data would name.
#[derive(Debug)]
pub struct RecordedAccount {
    pub pubkey: Pubkey,
    pub account: Account,
    pub record: Option<(DelegationRecord, Option<Vec<Instruction>>)>,
    pub derived_eata: Option<Pubkey>,
}

/// What delegated accounts are judged by.
#[derive(Debug)]
pub struct DelegationRules {
    pub validator_pubkey: Pubkey,
    /// The program whose accounts hold tokens for the rollup.
    pub eata_program: Pubkey,
    /// Programs with too many accounts to subscribe to.
    pub programs_not_to_subscribe: Vec<Pubkey>,
}

impl DelegationRules {
    /// The rules of a validator. The token programs have too many accounts to subscribe to.
    pub fn new(validator_pubkey: Pubkey, eata_program: Pubkey) -> (r: Self)
        ensures
            r.validator_pubkey == validator_pubkey,
            r.eata_program == eata_program,
            r.programs_not_to_subscribe@ == seq![
                Pubkey { bytes: TOKEN_PROGRAM_ID },
                Pubkey { bytes: TOKEN_2022_PROGRAM_ID },
                Pubkey { bytes: ASSOCIATED_TOKEN_PROGRAM_ID },
            ],
    {
        let mut programs_not_to_subscribe: Vec<Pubkey> = Vec::new();
        programs_not_to_subscribe.push(Pubkey { bytes: TOKEN_PROGRAM_ID });
        programs_not_to_subscribe.push(Pubkey { bytes: TOKEN_2022_PROGRAM_ID });
        programs_not_to_subscribe.push(Pubkey { bytes: ASSOCIATED_TOKEN_PROGRAM_ID });
        DelegationRules { validator_pubkey, eata_program, programs_not_to_subscribe }
    }
}

impl RecordedAccount {
    /// Whether the account holds a wallet's tokens for the rollup.
    pub open spec fn is_raw_eata(&self, eata_program: Pubkey) -> bool {
        self.record matches Some((record, _)) && is_raw_eata_account(
            self.pubkey,
            self.account.data@,
            record.owner,
            eata_program,
            self.derived_eata,
        )
    }

    /// The account with what its record says of it.
    pub open spec fn with_record(&self, rules: DelegationRules) -> Account {
        match self.record {
            Some((record, _)) => account_with_record(
                self.account,
                record,
                rules.validator_pubkey,
                self.is_raw_eata(rules.eata_program),
            ),
            None => self.account,
        }
    }

    /// Whether the rollup runs the account after its record was applied.
    pub open spec fn runs_here(&self, rules: DelegationRules) -> bool {
        self.with_record(rules).mode == AccountMode::Delegated
    }

    /// Whether `request` brings the account in as its record says: the actions only if the
    /// rollup runs the account.
    pub open spec fn is_request(&self, rules: DelegationRules, request: AccountCloneRequest) -> bool {
        &&& request.pubkey == self.pubkey
        &&& request.account == self.with_record(rules)
        &&& request.source_slots is None
        &&& match self.record {
            Some((record, actions)) => {
                &&& request.commit_frequency_ms == record_commit_frequency(
                    record,
                    rules.validator_pubkey,
                    self.is_raw_eata(rules.eata_program),
                )
                &&& request.delegated_to_other == delegated_to_other(
                    record,
                    rules.validator_pubkey,
                )
                &&& if self.runs_here(rules) && actions is Some && actions->0@.len() > 0 {
                    &&& request.post_delegation_mode matches ClonePostDelegationMode::ExecuteActions(
                        bundle,
                    )
                    &&& bundle.source() == record.owner
                    &&& bundle.instructions() == actions->0@
                } else {
                    request.post_delegation_mode is Plain
                }
            },
            None => {
                &&& request.commit_frequency_ms is None
                &&& request.delegated_to_other is None
                &&& request.post_delegation_mode is Plain
            },
        }
    }
}

/// Picks the accounts without a record.
pub open spec fn pick_unrecorded() -> spec_fn(RecordedAccount) -> Option<(Pubkey, u64)> {
    |recorded: RecordedAccount|
        match recorded.record {
            Some(_) => None,
            None => Some((recorded.pubkey, recorded.account.slot)),
        }
}

/// Picks the programs that owned accounts which the rollup runs, if they may be subscribed to.
pub open spec fn pick_owner_program(rules: DelegationRules) -> spec_fn(RecordedAccount) -> Option<
    Pubkey,
> {
    |recorded: RecordedAccount|
        match recorded.record {
            Some((record, _)) => if recorded.runs_here(rules)
                && !rules.programs_not_to_subscribe@.contains(record.owner) {
                Some(record.owner)
            } else {
                None
            },
            None => None,
        }
}

/// Makes the request that brings a delegated account in as its record says.
pub fn request_with_record(recorded: RecordedAccount, rules: &DelegationRules) -> (r:
    AccountCloneRequest)
    ensures
        recorded.is_request(*rules, r),
{
    let pubkey = recorded.pubkey;
    match recorded.record {
        None => AccountCloneRequest::plain(pubkey, recorded.account),
        Some((record, actions)) => {
            let is_raw_eata = parse_raw_eata_pda(
                &pubkey,
                recorded.account.data.as_slice(),
                &record.owner,
                &rules.eata_program,
                recorded.derived_eata,
            ).is_some();
            let mut account = recorded.account;
            let commit_frequency_ms = apply_delegation_record_to_account(
                &rules.validator_pubkey,
                is_raw_eata,
                &mut account,
                &record,
            );
            let delegated_to_other = get_delegated_to_other(&rules.validator_pubkey, &record);
            let bundle = match actions {
                Some(instructions) => if account.is(AccountMode::Delegated) {
                    DelegationActions::new(record.owner, instructions)
                } else {
                    None
                },
                None => None,
            };
            AccountCloneRequest {
                pubkey,
                account,
                commit_frequency_ms,
                post_delegation_mode: ClonePostDelegationMode::from_actions(bundle),
                delegated_to_other,
                source_slots: None,
            }
        },
    }
}

/// The requests for delegated accounts with what was read from their records, after those for
/// plain accounts, and what is given back then: the accounts, for being fetched with their
/// records.
pub fn resolve_recorded_accounts(
    keys: &Vec<Pubkey>,
    record_subs: Vec<Pubkey>,
    plain: Vec<AccountCloneRequest>,
    recorded: Vec<RecordedAccount>,
    rules: &DelegationRules,
) -> (r: (ResolvedDelegatedAccounts, Vec<SubscriptionRelease>))
    ensures
        r.0.accounts_to_clone@.len() == plain@.len() + recorded@.len(),
        r.0.accounts_to_clone@.take(plain@.len() as int) == plain@,
        forall|i: int|
            0 <= i < recorded@.len() ==> (#[trigger] recorded@[i]).is_request(
                *rules,
                r.0.accounts_to_clone@[plain@.len() + i],
            ),
        r.0.record_subs == record_subs,
        r.0.missing_delegation_record@ == picked(recorded@, pick_unrecorded()),
        r.0.owner_programs@ == distinct_keys(picked(recorded@, pick_owner_program(*rules))),
        r.1@ == released(keys@, SubscriptionReason::DirectAccount),
{
    let ghost first = plain@;
    let ghost all = recorded@;
    let mut accounts_to_clone = plain;
    let mut missing_delegation_record: Vec<(Pubkey, u64)> = Vec::new();
    let mut owner_programs: Vec<Pubkey> = Vec::new();
    for item in it: recorded
        invariant
            it.seq() == all,
            accounts_to_clone@.len() == first.len() + it.index(),
            accounts_to_clone@.take(first.len() as int) == first,
            forall|j: int|
                0 <= j < it.index() ==> (#[trigger] all[j]).is_request(
                    *rules,
                    accounts_to_clone@[first.len() + j],
                ),
            missing_delegation_record@ == picked(all.take(it.index() as int), pick_unrecorded()),
            owner_programs@ == distinct_keys(
                picked(all.take(it.index() as int), pick_owner_program(*rules)),
            ),
    {
        let ghost i = it.index() as int;
        let ghost before = accounts_to_clone@;
        let ghost owners = picked(all.take(i), pick_owner_program(*rules));
        proof {
            lemma_picked_step(all, i, pick_unrecorded());
            lemma_picked_step(all, i, pick_owner_program(*rules));
        }
        let pubkey = item.pubkey;
        let slot = item.account.slot;
        let owner = match &item.record {
            Some((record, _)) => Some(record.owner),
            None => None,
        };
        let request = request_with_record(item, rules);
        match owner {
            None => {
                missing_delegation_record.push((pubkey, slot));
            },
            Some(owner) => {
                if request.account.is(AccountMode::Delegated) && !contains_key(
                    &rules.programs_not_to_subscribe,
                    &owner,
                ) {
                    insert_key(&mut owner_programs, owner);
                    assert(owners.push(owner).drop_last() =~= owners);
                }
            },
        }
        accounts_to_clone.push(request);
        proof {
            assert(accounts_to_clone@.take(first.len() as int) =~= before.take(
                first.len() as int,
            ));
        }
    }
    assert(all.take(all.len() as int) =~= all);
    let mut releases: Vec<SubscriptionRelease> = Vec::new();
    append_releases(&mut releases, keys, SubscriptionReason::DirectAccount);
    (
        ResolvedDelegatedAccounts {
            accounts_to_clone,
            record_subs,
            missing_delegation_record,
            owner_programs,
        },
        releases,
    )
}

/// A delegated account that was fetched with its record. `derived_eata` is the address derived
/// of the wallet and the mint that its data would name.
#[derive(Debug)]
pub struct DelegatedAccount {
    pub pair: AccountWithCompanion,
    pub derived_eata: Option<Pubkey>,
}

impl DelegatedAccount {
    /// Whether `recorded` is the account with what its record may be read as.
    pub open spec fn reads_as(
        &self,
        validator: Pubkey,
        secret: Seq<u8>,
        recorded: RecordedAccount,
    ) -> bool {
        &&& recorded.pubkey == self.pair.pubkey
        &&& recorded.account == self.pair.account
        &&& recorded.derived_eata == self.derived_eata
        &&& match self.pair.companion_account {
            None => recorded.record is None,
            Some(companion) => recorded.record matches Some(parsed) && record_parse(
                companion.data@,
                self.pair.companion_pubkey,
                validator,
                secret,
                Ok(parsed),
            ),
        }
    }

    /// Whether reading the account's record may fail with `error`.
    pub open spec fn fails_with(
        &self,
        validator: Pubkey,
        secret: Seq<u8>,
        error: ChainlinkError,
    ) -> bool {
        self.pair.companion_account matches Some(companion) && record_parse(
            companion.data@,
            self.pair.companion_pubkey,
            validator,
            secret,
            Err(error),
        )
    }

    /// Whether there is no record, or what there is begins with one.
    pub open spec fn has_readable_header(&self) -> bool {
        self.pair.companion_account matches Some(companion) ==> is_record(companion.data@)
    }
}

/// Reads the records of delegated accounts, up to the first that cannot be read.
pub fn read_records(
    accounts: Vec<DelegatedAccount>,
    validator_pubkey: &Pubkey,
    secret: &[u8; 32],
) -> (r: Result<Vec<RecordedAccount>, ChainlinkError>)
    ensures
        match r {
            Ok(recorded) => {
                &&& recorded@.len() == accounts@.len()
                &&& forall|i: int|
                    0 <= i < accounts@.len() ==> (#[trigger] accounts@[i]).reads_as(
                        *validator_pubkey,
                        secret@,
                        recorded@[i],
                    )
            },
            Err(error) => exists|i: int|
                {
                    &&& 0 <= i < accounts@.len()
                    &&& (#[trigger] accounts@[i]).fails_with(*validator_pubkey, secret@, error)
                    &&& forall|j: int|
                        0 <= j < i ==> (#[trigger] accounts@[j]).has_readable_header()
                },
        },
{
    let ghost all = accounts@;
    let mut recorded: Vec<RecordedAccount> = Vec::new();
    for account in it: accounts
        invariant
            it.seq() == all,
            all == accounts@,
            recorded@.len() == it.index(),
            forall|j: int|
                0 <= j < it.index() ==> (#[trigger] all[j]).reads_as(
                    *validator_pubkey,
                    secret@,
                    recorded@[j],
                ),
    {
        let ghost i = it.index() as int;
        let record = match &account.pair.companion_account {
            None => None,
            Some(companion) => match parse_delegation_record(
                companion.data.as_slice(),
                account.pair.companion_pubkey,
                validator_pubkey,
                secret,
            ) {
                Ok(parsed) => Some(parsed),
                Err(error) => {
                    proof {
                        assert(all[i].fails_with(*validator_pubkey, secret@, error));
                        assert forall|j: int| 0 <= j < i implies (
                        #[trigger] all[j]).has_readable_header() by {
                            assert(all[j].reads_as(*validator_pubkey, secret@, recorded@[j]));
                        }
                    }
                    return Err(error);
                },
            },
        };
        recorded.push(
            RecordedAccount {
                pubkey: account.pair.pubkey,
                account: account.pair.account,
                record,
                derived_eata: account.derived_eata,
            },
        );
    }
    Ok(recorded)
}

/// Picks what went wrong.
pub open spec fn pick_error<T>() -> spec_fn(Result<T, ChainlinkError>) -> Option<ChainlinkError> {
    |result: Result<T, ChainlinkError>|
        match result {
            Ok(_) => None,
            Err(error) => Some(error),
        }
}

/// Picks what went well.
pub open spec fn pick_success<T>() -> spec_fn(Result<T, ChainlinkError>) -> Option<T> {
    |result: Result<T, ChainlinkError>|
        match result {
            Ok(value) => Some(value),
            Err(_) => None,
        }
}

/// Parts results into what went wrong and what went well.
pub fn split_results<T>(results: Vec<Result<T, ChainlinkError>>) -> (r: (
    Vec<ChainlinkError>,
    Vec<T>,
))
    ensures
        r.0@ == picked(results@, pick_error()),
        r.1@ == picked(results@, pick_success()),
{
    let ghost all = results@;
    let mut errors: Vec<ChainlinkError> = Vec::new();
    let mut successes: Vec<T> = Vec::new();
    for result in it: results
        invariant
            it.seq() == all,
            errors@ == picked(all.take(it.index() as int), pick_error()),
            successes@ == picked(all.take(it.index() as int), pick_success()),
    {
        proof {
            lemma_picked_step(all, it.index() as int, pick_error());
            lemma_picked_step(all, it.index() as int, pick_success());
        }
        match result {
            Ok(value) => successes.push(value),
            Err(error) => errors.push(error),
        }
    }
    assert(all.take(all.len() as int) =~= all);
    (errors, successes)
}

/// What became of delegated accounts, and what is given back.
#[derive(Debug)]
pub struct DelegatedOutcome {
    pub result: Result<ResolvedDelegatedAccounts, ChainlinkError>,
    pub releases: Vec<SubscriptionRelease>,
}

/// Whether the requests are those for plain accounts and for delegated accounts with what
/// their records may be read as.
pub open spec fn resolves(
    plain: Seq<AccountCloneRequest>,
    accounts: Seq<DelegatedAccount>,
    recorded: Seq<RecordedAccount>,
    rules: DelegationRules,
    secret: Seq<u8>,
    resolved: ResolvedDelegatedAccounts,
) -> bool {
    &&& recorded.len() == accounts.len()
    &&& forall|i: int|
        0 <= i < accounts.len() ==> (#[trigger] accounts[i]).reads_as(
            rules.validator_pubkey,
            secret,
            recorded[i],
        )
    &&& resolved.accounts_to_clone@.len() == plain.len() + recorded.len()
    &&& resolved.accounts_to_clone@.take(plain.len() as int) == plain
    &&& forall|i: int|
        0 <= i < recorded.len() ==> (#[trigger] recorded[i]).is_request(
            rules,
            resolved.accounts_to_clone@[plain.len() + i],
        )
    &&& resolved.missing_delegation_record@ == picked(recorded, pick_unrecorded())
    &&& resolved.owner_programs@ == distinct_keys(picked(recorded, pick_owner_program(rules)))
}

/// Turns what fetching delegated accounts with their records gave into clone requests. It
/// takes one fetch that failed, or one record that cannot be read, for all to fail: then
/// everything that was subscribed to for them is given back.
pub fn resolve_delegated_accounts(
    keys: &Vec<Pubkey>,
    record_subs: Vec<Pubkey>,
    plain: Vec<AccountCloneRequest>,
    fetched: Vec<Result<DelegatedAccount, ChainlinkError>>,
    rules: &DelegationRules,
    secret: &[u8; 32],
) -> (r: DelegatedOutcome)
    ensures
        ({
            let errors = picked(fetched@, pick_error());
            let accounts = picked(fetched@, pick_success());
            if errors.len() > 0 {
                &&& r.result matches Err(
                    ChainlinkError::DelegatedAccountResolutionsFailed(message),
                )
                &&& message@ == joined(error_texts(errors), ", "@)
            } else {
                match r.result {
                    Ok(resolved) => {
                        &&& resolved.record_subs == record_subs
                        &&& exists|recorded: Seq<RecordedAccount>| #[trigger]
                            resolves(plain@, accounts, recorded, *rules, secret@, resolved)
                    },
                    Err(error) => exists|i: int|
                        {
                            &&& 0 <= i < accounts.len()
                            &&& (#[trigger] accounts[i]).fails_with(
                                rules.validator_pubkey,
                                secret@,
                                error,
                            )
                            &&& forall|j: int|
                                0 <= j < i ==> (#[trigger] accounts[j]).has_readable_header()
                        },
                }
            }
        }),
        r.releases@ == if r.result is Ok {
            released(keys@, SubscriptionReason::DirectAccount)
        } else {
            failed_record_releases(keys@, record_subs@)
        },
{
    let (errors, accounts) = split_results(fetched);
    let ghost all = accounts@;
    if errors.len() > 0 {
        return DelegatedOutcome {
            releases: release_failed_records(keys, &record_subs),
            result: Err(
                ChainlinkError::DelegatedAccountResolutionsFailed(join_errors(&errors)),
            ),
        };
    }
    match read_records(accounts, &rules.validator_pubkey, secret) {
        Err(error) => DelegatedOutcome {
            releases: release_failed_records(keys, &record_subs),
            result: Err(error),
        },
        Ok(recorded) => {
            let ghost read = recorded@;
            let (resolved, releases) = resolve_recorded_accounts(
                keys,
                record_subs,
                plain,
                recorded,
                rules,
            );
            assert(resolves(plain@, all, read, *rules, secret@, resolved));
            DelegatedOutcome { result: Ok(resolved), releases }
        },
    }
}

/// Picks the programs of the third loader, or the others.
pub open spec fn pick_loader_v3(of_loader_v3: bool) -> spec_fn((Pubkey, Account, u64)) -> Option<
    (Pubkey, Account, u64),
> {
    |program: (Pubkey, Account, u64)|
        if (program.1.owner.bytes == LOADER_V3_ID) == of_loader_v3 {
            Some(program)
        } else {
            None
        }
}

/// The latest of the slots that the programs have to be read at; none without programs and
/// without a slot that is asked for.
pub open spec fn batch_slot(programs: Seq<(Pubkey, Account, u64)>, min: Option<u64>) -> Option<
    u64,
>
    decreases programs.len(),
{
    if programs.len() == 0 {
        min
    } else {
        let front = batch_slot(programs.drop_last(), min);
        let slot = slot_for(min, programs.last().2);
        match front {
            Some(latest) => Some(
                if latest >= slot {
                    latest
                } else {
                    slot
                },
            ),
            None => Some(slot),
        }
    }
}

/// How programs get their code. Those of the third loader keep it in another account, which is
/// fetched with them.
#[derive(Debug)]
pub struct ProgramFetch {
    /// The programs of the third loader.
    pub loader_v3: Vec<(Pubkey, Account, u64)>,
    /// The accounts that keep their code.
    pub program_data: Vec<Pubkey>,
    /// The programs that keep their code themselves.
    pub single: Vec<(Pubkey, Account, u64)>,
    /// The slot to fetch at, the same for all.
    pub min_context_slot: Option<u64>,
}

impl ProgramFetch {
    /// Whether each program of the third loader has its code account.
    pub open spec fn wf(&self) -> bool {
        &&& self.program_data@.len() == self.loader_v3@.len()
        &&& forall|i: int|
            0 <= i < self.loader_v3@.len() ==> (#[trigger] self.program_data@[i])@
                == program_data_address(self.loader_v3@[i].0@)
    }

    /// The programs of the third loader, each followed by its code account.
    pub open spec fn to_fetch(&self) -> Seq<Pubkey> {
        Seq::new(
            2 * self.loader_v3@.len(),
            |i: int|
                if i % 2 == 0 {
                    self.loader_v3@[i / 2].0
                } else {
                    self.program_data@[i / 2]
                },
        )
    }

    /// The accounts to fetch.
    pub fn pubkeys_to_fetch(&self) -> (r: Vec<Pubkey>)
        requires
            self.wf(),
        ensures
            r@ == self.to_fetch(),
    {
        let mut keys: Vec<Pubkey> = Vec::new();
        let mut i: usize = 0;
        while i < self.loader_v3.len()
            invariant
                self.wf(),
                i <= self.loader_v3.len(),
                keys@.len() == 2 * i,
                forall|j: int| 0 <= j < keys@.len() ==> keys@[j] == self.to_fetch()[j],
            decreases self.loader_v3.len() - i,
        {
            keys.push(self.loader_v3[i].0);
            keys.push(self.program_data[i]);
            i = i + 1;
        }
        assert(keys@ =~= self.to_fetch());
        keys
    }

    /// The code accounts to subscribe to, each once.
    pub fn program_data_subs(&self) -> (r: Vec<Pubkey>)
        ensures
            r@ == distinct_keys(self.program_data@),
    {
        let mut subs: Vec<Pubkey> = Vec::new();
        extend_distinct(&mut subs, &self.program_data);
        assert(Seq::<Pubkey>::empty() + self.program_data@ =~= self.program_data@);
        subs
    }
}

/// Plans how programs get their code.
pub fn plan_program_fetch(
    programs: Vec<(Pubkey, Account, u64)>,
    min_context_slot: Option<u64>,
) -> (r: ProgramFetch)
    ensures
        r.wf(),
        r.loader_v3@ == picked(programs@, pick_loader_v3(true)),
        r.single@ == picked(programs@, pick_loader_v3(false)),
        r.min_context_slot == batch_slot(
            picked(programs@, pick_loader_v3(true)),
            min_context_slot,
        ),
{
    let ghost all = programs@;
    let mut loader_v3: Vec<(Pubkey, Account, u64)> = Vec::new();
    let mut program_data: Vec<Pubkey> = Vec::new();
    let mut single: Vec<(Pubkey, Account, u64)> = Vec::new();
    let mut slot = min_context_slot;
    for program in it: programs
        invariant
            it.seq() == all,
            loader_v3@ == picked(all.take(it.index() as int), pick_loader_v3(true)),
            single@ == picked(all.take(it.index() as int), pick_loader_v3(false)),
            slot == batch_slot(loader_v3@, min_context_slot),
            program_data@.len() == loader_v3@.len(),
            forall|j: int|
                0 <= j < loader_v3@.len() ==> (#[trigger] program_data@[j])@
                    == program_data_address(loader_v3@[j].0@),
    {
        let ghost before = loader_v3@;
        proof {
            lemma_picked_step(all, it.index() as int, pick_loader_v3(true));
            lemma_picked_step(all, it.index() as int, pick_loader_v3(false));
        }
        if program.1.owner.is(&LOADER_V3_ID) {
            let effective = effective_slot(min_context_slot, program.2);
            slot = match slot {
                Some(latest) => Some(later(latest, effective)),
                None => Some(effective),
            };
            program_data.push(program_data_pda(&program.0));
            loader_v3.push(program);
            assert(loader_v3@.drop_last() =~= before);
        } else {
            single.push(program);
        }
    }
    assert(all.take(all.len() as int) =~= all);
    ProgramFetch { loader_v3, program_data, single, min_context_slot: slot }
}

/// What is said if a fetch of programs with their code gave another number of accounts.
pub open spec fn program_count_text(expected: nat, got: nat) -> Seq<char> {
    "LoaderV3 fetch: expected "@ + decimal_text(expected) + " accounts, got "@ + decimal_text(got)
}

/// What the bank holds where the chain was not asked: for a program and for its code account.
#[derive(Debug)]
pub struct BankPair {
    pub account: Option<Account>,
    pub companion: Option<Account>,
}

/// The result for the program at `i`.
pub open spec fn program_pair(
    plan: ProgramFetch,
    accounts: Seq<RemoteAccount>,
    in_bank: Seq<BankPair>,
    i: int,
) -> Result<AccountWithCompanion, ChainlinkError> {
    paired(
        plan.loader_v3@[i].0,
        plan.program_data@[i],
        accounts[2 * i],
        accounts[2 * i + 1],
        in_bank[i].account,
        in_bank[i].companion,
    )
}

/// Puts fetched programs and their code accounts together. `in_bank` holds, for each program,
/// what the bank holds where the chain was not asked.
pub fn pair_programs(
    plan: &ProgramFetch,
    pubkeys_to_fetch: &Vec<Pubkey>,
    fetched: Result<Vec<RemoteAccount>, String>,
    in_bank: Vec<BankPair>,
) -> (r: Vec<Result<AccountWithCompanion, ChainlinkError>>)
    requires
        plan.wf(),
        pubkeys_to_fetch@ == plan.to_fetch(),
        in_bank@.len() == plan.loader_v3@.len(),
    ensures
        match fetched {
            Err(message) => r@ == seq![
                Err::<AccountWithCompanion, _>(ChainlinkError::RemoteAccountProviderError(message)),
            ],
            Ok(accounts) => if accounts@.len() != 2 * plan.loader_v3@.len() {
                &&& r@.len() == 1
                &&& r@[0] matches Err(ChainlinkError::ProgramAccountResolutionsFailed(message))
                &&& message@ == program_count_text(2 * plan.loader_v3@.len(), accounts@.len())
            } else {
                r@ == Seq::new(
                    plan.loader_v3@.len(),
                    |i: int| program_pair(*plan, accounts@, in_bank@, i),
                )
            },
        },
{
    let mut results: Vec<Result<AccountWithCompanion, ChainlinkError>> = Vec::new();
    let accounts = match fetched {
        Ok(accounts) => accounts,
        Err(message) => {
            results.push(Err(ChainlinkError::RemoteAccountProviderError(message)));
            assert(results@ =~= seq![
                Err::<AccountWithCompanion, _>(ChainlinkError::RemoteAccountProviderError(message)),
            ]);
            return results;
        },
    };
    if accounts.len() != pubkeys_to_fetch.len() {
        let message = concat4(
            "LoaderV3 fetch: expected ",
            decimal(pubkeys_to_fetch.len() as u64).as_str(),
            " accounts, got ",
            decimal(accounts.len() as u64).as_str(),
        );
        results.push(Err(ChainlinkError::ProgramAccountResolutionsFailed(message)));
        return results;
    }
    let ghost all = accounts@;
    let ghost banks = in_bank@;
    let mut accounts = accounts;
    for held in it: in_bank
        invariant
            plan.wf(),
            it.seq() == banks,
            banks.len() == plan.loader_v3@.len(),
            all.len() == 2 * banks.len(),
            accounts.len() == all.len(),
            results@.len() == it.index(),
            forall|j: int| 2 * it.index() <= j < all.len() ==> accounts@[j] == all[j],
            forall|j: int|
                0 <= j < it.index() ==> #[trigger] results@[j] == program_pair(
                    *plan,
                    all,
                    banks,
                    j,
                ),
    {
        let i = results.len();
        let acc = take_at(&mut accounts, 2 * i, RemoteAccount::NotFound(0));
        let companion = take_at(&mut accounts, 2 * i + 1, RemoteAccount::NotFound(0));
        results.push(
            resolve_account_with_companion(
                plan.loader_v3[i].0,
                plan.program_data[i],
                acc,
                companion,
                held.account,
                held.companion,
            ),
        );
    }
    assert(results@ =~= Seq::new(
        plan.loader_v3@.len(),
        |i: int| program_pair(*plan, all, banks, i),
    ));
    results
}

/// How loading a program goes on.
#[derive(Debug)]
pub enum ProgramStep {
    /// The program and its code account could not be had.
    Failed(ChainlinkError),
    /// The program has no code account.
    WithoutCode { program_id: Pubkey, program_data: Pubkey },
    /// Its code is read from its code account.
    Load { program_id: Pubkey, owner: Pubkey, code: Account },
}

/// How loading a program goes on once it was put together with its code account.
pub fn program_step(paired: Result<AccountWithCompanion, ChainlinkError>) -> (r: ProgramStep)
    ensures
        r == match paired {
            Err(error) => ProgramStep::Failed(error),
            Ok(pair) => match pair.companion_account {
                None => ProgramStep::WithoutCode {
                    program_id: pair.pubkey,
                    program_data: pair.companion_pubkey,
                },
                Some(code) => ProgramStep::Load {
                    program_id: pair.pubkey,
                    owner: pair.account.owner,
                    code,
                },
            },
        },
{
    match paired {
        Err(error) => ProgramStep::Failed(error),
        Ok(pair) => match pair.companion_account {
            None => ProgramStep::WithoutCode {
                program_id: pair.pubkey,
                program_data: pair.companion_pubkey,
            },
            Some(code) => ProgramStep::Load {
                program_id: pair.pubkey,
                owner: pair.account.owner,
                code,
            },
        },
    }
}

/// What became of a program.
#[derive(Debug)]
pub enum ProgramLoad {
    /// The program and its code account could not be had.
    Failed(ChainlinkError),
    /// The program has no code account.
    WithoutCode { program_id: Pubkey, program_data: Pubkey },
    /// Its code was read, or could not be.
    Read(Result<LoadedProgram, ChainlinkError>),
}

/// Picks why code could not be read.
pub open spec fn pick_unreadable() -> spec_fn(ProgramLoad) -> Option<ChainlinkError> {
    |load: ProgramLoad|
        match load {
            ProgramLoad::Read(Err(error)) => Some(error),
            _ => None,
        }
}

/// Picks the programs that were loaded.
pub open spec fn pick_loaded() -> spec_fn(ProgramLoad) -> Option<LoadedProgram> {
    |load: ProgramLoad|
        match load {
            ProgramLoad::Read(Ok(program)) => Some(program),
            _ => None,
        }
}

/// Picks why programs could not be had.
pub open spec fn pick_failed() -> spec_fn(ProgramLoad) -> Option<ChainlinkError> {
    |load: ProgramLoad|
        match load {
            ProgramLoad::Failed(error) => Some(error),
            _ => None,
        }
}

/// Picks the programs without code.
pub open spec fn pick_without_code() -> spec_fn(ProgramLoad) -> Option<ChainlinkError> {
    |load: ProgramLoad|
        match load {
            ProgramLoad::WithoutCode { program_id, program_data } => Some(
                ChainlinkError::FailedToResolveProgramDataAccount(program_data, program_id),
            ),
            _ => None,
        }
}

/// What became of programs, sorted.
#[derive(Debug)]
pub struct SortedLoads {
    /// Why code could not be read.
    pub unreadable: Vec<ChainlinkError>,
    /// Why programs could not be had, then those without code.
    pub errors: Vec<ChainlinkError>,
    pub loaded: Vec<LoadedProgram>,
}

/// Sorts what became of programs.
pub fn sort_loads(loads: Vec<ProgramLoad>) -> (r: SortedLoads)
    ensures
        r.unreadable@ == picked(loads@, pick_unreadable()),
        r.errors@ == picked(loads@, pick_failed()) + picked(loads@, pick_without_code()),
        r.loaded@ == picked(loads@, pick_loaded()),
{
    let ghost all = loads@;
    let mut failed: Vec<ChainlinkError> = Vec::new();
    let mut without_code: Vec<ChainlinkError> = Vec::new();
    let mut unreadable: Vec<ChainlinkError> = Vec::new();
    let mut loaded: Vec<LoadedProgram> = Vec::new();
    for load in it: loads
        invariant
            it.seq() == all,
            failed@ == picked(all.take(it.index() as int), pick_failed()),
            without_code@ == picked(all.take(it.index() as int), pick_without_code()),
            unreadable@ == picked(all.take(it.index() as int), pick_unreadable()),
            loaded@ == picked(all.take(it.index() as int), pick_loaded()),
    {
        proof {
            lemma_picked_step(all, it.index() as int, pick_failed());
            lemma_picked_step(all, it.index() as int, pick_without_code());
            lemma_picked_step(all, it.index() as int, pick_unreadable());
            lemma_picked_step(all, it.index() as int, pick_loaded());
        }
        match load {
            ProgramLoad::Failed(error) => failed.push(error),
            ProgramLoad::WithoutCode { program_id, program_data } => without_code.push(
                ChainlinkError::FailedToResolveProgramDataAccount(program_data, program_id),
            ),
            ProgramLoad::Read(Ok(program)) => loaded.push(program),
            ProgramLoad::Read(Err(error)) => unreadable.push(error),
        }
    }
    assert(all.take(all.len() as int) =~= all);
    let mut errors = failed;
    errors.append(&mut without_code);
    SortedLoads { unreadable, errors, loaded }
}

/// What became of programs, and what is given back.
#[derive(Debug)]
pub struct ProgramsOutcome {
    pub result: Result<ResolvedPrograms, ChainlinkError>,
    pub releases: Vec<SubscriptionRelease>,
}

/// What is given back if programs could not be had: what was fetched, and the code accounts.
pub open spec fn failed_program_releases(fetched: Seq<Pubkey>, program_data: Seq<Pubkey>) -> Seq<
    SubscriptionRelease,
> {
    released(fetched, SubscriptionReason::DirectAccount) + released(
        program_data,
        SubscriptionReason::ProgramData,
    )
}

/// Puts together what became of programs. The first whose code cannot be read ends it. If any
/// could not be had or has no code account, all fail, and what was subscribed to for them is
/// given back.
pub fn resolve_programs_with_program_data(
    loads: Vec<ProgramLoad>,
    pubkeys_to_fetch: &Vec<Pubkey>,
    program_data_subs: Vec<Pubkey>,
) -> (r: ProgramsOutcome)
    ensures
        ({
            let unreadable = picked(loads@, pick_unreadable());
            let errors = picked(loads@, pick_failed()) + picked(loads@, pick_without_code());
            if unreadable.len() > 0 {
                &&& r.result matches Err(error)
                &&& error == unreadable[0]
                &&& r.releases@.len() == 0
            } else if errors.len() > 0 {
                &&& r.result matches Err(ChainlinkError::ProgramAccountResolutionsFailed(message))
                &&& message@ == joined(error_texts(errors), ", "@)
                &&& r.releases@ == failed_program_releases(pubkeys_to_fetch@, program_data_subs@)
            } else {
                &&& r.result matches Ok(resolved)
                &&& resolved.loaded_programs@ == picked(loads@, pick_loaded())
                &&& resolved.program_data_subs == program_data_subs
                &&& r.releases@.len() == 0
            }
        }),
{
    let sorted = sort_loads(loads);
    let mut releases: Vec<SubscriptionRelease> = Vec::new();
    let mut unreadable = sorted.unreadable;
    if unreadable.len() > 0 {
        let error = unreadable.swap_remove(0);
        return ProgramsOutcome { result: Err(error), releases };
    }
    if sorted.errors.len() > 0 {
        append_releases(&mut releases, pubkeys_to_fetch, SubscriptionReason::DirectAccount);
        append_releases(&mut releases, &program_data_subs, SubscriptionReason::ProgramData);
        assert(releases@ =~= failed_program_releases(pubkeys_to_fetch@, program_data_subs@));
        return ProgramsOutcome {
            result: Err(
                ChainlinkError::ProgramAccountResolutionsFailed(join_errors(&sorted.errors)),
            ),
            releases,
        };
    }
    ProgramsOutcome {
        result: Ok(ResolvedPrograms { loaded_programs: sorted.loaded, program_data_subs }),
        releases,
    }
}

/// Whether an account is among those that are cloned.
pub open spec fn is_cloned(accounts: Seq<AccountCloneRequest>, pubkey: Pubkey) -> bool {
    exists|i: int| 0 <= i < accounts.len() && (#[trigger] accounts[i]).pubkey == pubkey
}

/// Whether a program is among those that were loaded.
pub open spec fn is_loaded(programs: Seq<LoadedProgram>, pubkey: Pubkey) -> bool {
    exists|i: int| 0 <= i < programs.len() && (#[trigger] programs[i]).program_id == pubkey
}

/// Tests whether an account is among those that are cloned.
pub fn clones_account(accounts: &Vec<AccountCloneRequest>, pubkey: &Pubkey) -> (r: bool)
    ensures
        r == is_cloned(accounts@, *pubkey),
{
    let mut i: usize = 0;
    while i < accounts.len()
        invariant
            i <= accounts.len(),
            forall|j: int| 0 <= j < i ==> (#[trigger] accounts@[j]).pubkey != *pubkey,
        decreases accounts.len() - i,
    {
        if accounts[i].pubkey == *pubkey {
            return true;
        }
        i = i + 1;
    }
    false
}

/// Tests whether a program is among those that were loaded.
pub fn loads_program(programs: &Vec<LoadedProgram>, pubkey: &Pubkey) -> (r: bool)
    ensures
        r == is_loaded(programs@, *pubkey),
{
    let mut i: usize = 0;
    while i < programs.len()
        invariant
            i <= programs.len(),
            forall|j: int| 0 <= j < i ==> (#[trigger] programs@[j]).program_id != *pubkey,
        decreases programs.len() - i,
    {
        if programs[i].program_id == *pubkey {
            return true;
        }
        i = i + 1;
    }
    false
}

/// Picks what is neither cloned nor loaded.
pub open spec fn pick_unclaimed(
    accounts: Seq<AccountCloneRequest>,
    programs: Seq<LoadedProgram>,
) -> spec_fn(Pubkey) -> Option<Pubkey> {
    |pubkey: Pubkey|
        if is_cloned(accounts, pubkey) || is_loaded(programs, pubkey) {
            None
        } else {
            Some(pubkey)
        }
}

/// Picks the accounts that the rollup runs.
pub open spec fn pick_delegated() -> spec_fn(AccountCloneRequest) -> Option<Pubkey> {
    |request: AccountCloneRequest|
        if request.account.mode == AccountMode::Delegated {
            Some(request.pubkey)
        } else {
            None
        }
}

/// The accounts that are not watched for their own sake any longer: those that were asked for
/// and came to nothing, and those that the rollup runs itself.
pub open spec fn no_longer_watched(
    requested: Seq<Pubkey>,
    accounts: Seq<AccountCloneRequest>,
    programs: Seq<LoadedProgram>,
) -> Seq<Pubkey> {
    distinct_keys(
        picked(requested, pick_unclaimed(accounts, programs)) + picked(accounts, pick_delegated()),
    )
}

/// What is given back once accounts and programs are cloned.
pub fn compute_subscription_releases(
    all_requested_pubkeys: &Vec<Pubkey>,
    accounts_to_clone: &Vec<AccountCloneRequest>,
    loaded_programs: &Vec<LoadedProgram>,
    record_subs: &Vec<Pubkey>,
    program_data_subs: &Vec<Pubkey>,
) -> (r: Vec<SubscriptionRelease>)
    ensures
        r@ == released(
            no_longer_watched(all_requested_pubkeys@, accounts_to_clone@, loaded_programs@),
            SubscriptionReason::DirectAccount,
        ) + released(record_subs@, SubscriptionReason::DelegationRecord) + released(
            program_data_subs@,
            SubscriptionReason::ProgramData,
        ),
{
    let ghost pick = pick_unclaimed(accounts_to_clone@, loaded_programs@);
    let mut candidates: Vec<Pubkey> = Vec::new();
    let mut i: usize = 0;
    while i < all_requested_pubkeys.len()
        invariant
            i <= all_requested_pubkeys.len(),
            pick == pick_unclaimed(accounts_to_clone@, loaded_programs@),
            candidates@ == picked(all_requested_pubkeys@.take(i as int), pick),
        decreases all_requested_pubkeys.len() - i,
    {
        proof {
            lemma_picked_step(all_requested_pubkeys@, i as int, pick);
        }
        let pubkey = all_requested_pubkeys[i];
        if !clones_account(accounts_to_clone, &pubkey) && !loads_program(
            loaded_programs,
            &pubkey,
        ) {
            candidates.push(pubkey);
        }
        i = i + 1;
    }
    assert(all_requested_pubkeys@.take(all_requested_pubkeys@.len() as int)
        =~= all_requested_pubkeys@);
    let ghost unclaimed = candidates@;
    let mut k: usize = 0;
    assert(unclaimed + picked(accounts_to_clone@.take(0), pick_delegated()) =~= unclaimed);
    while k < accounts_to_clone.len()
        invariant
            k <= accounts_to_clone.len(),
            candidates@ == unclaimed + picked(
                accounts_to_clone@.take(k as int),
                pick_delegated(),
            ),
        decreases accounts_to_clone.len() - k,
    {
        proof {
            lemma_picked_step(accounts_to_clone@, k as int, pick_delegated());
        }
        if accounts_to_clone[k].account.is(AccountMode::Delegated) {
            candidates.push(accounts_to_clone[k].pubkey);
        }
        k = k + 1;
        assert(candidates@ =~= unclaimed + picked(
            accounts_to_clone@.take(k as int),
            pick_delegated(),
        ));
    }
    assert(accounts_to_clone@.take(accounts_to_clone@.len() as int) =~= accounts_to_clone@);
    let mut direct: Vec<Pubkey> = Vec::new();
    extend_distinct(&mut direct, &candidates);
    assert(Seq::<Pubkey>::empty() + candidates@ =~= candidates@);
    let mut releases: Vec<SubscriptionRelease> = Vec::new();
    append_releases(&mut releases, &direct, SubscriptionReason::DirectAccount);
    append_releases(&mut releases, record_subs, SubscriptionReason::DelegationRecord);
    append_releases(&mut releases, program_data_subs, SubscriptionReason::ProgramData);
    assert(releases@ =~= released(direct@, SubscriptionReason::DirectAccount) + released(
        record_subs@,
        SubscriptionReason::DelegationRecord,
    ) + released(program_data_subs@, SubscriptionReason::ProgramData));
    releases
}

/// An account stays watched for its own sake exactly if it was cloned or loaded and the rollup
/// does not run it. None is given back twice.
pub proof fn law_watches_what_it_copies(
    requested: Seq<Pubkey>,
    accounts: Seq<AccountCloneRequest>,
    programs: Seq<LoadedProgram>,
    pubkey: Pubkey,
)
    ensures
        no_longer_watched(requested, accounts, programs).no_duplicates(),
        no_longer_watched(requested, accounts, programs).contains(pubkey) <==> {
            ||| requested.contains(pubkey) && !is_cloned(accounts, pubkey) && !is_loaded(
                programs,
                pubkey,
            )
            ||| exists|i: int|
                0 <= i < accounts.len() && (#[trigger] accounts[i]).pubkey == pubkey
                    && accounts[i].account.mode == AccountMode::Delegated
        },
{
    let unclaimed = picked(requested, pick_unclaimed(accounts, programs));
    let delegated = picked(accounts, pick_delegated());
    lemma_distinct_keys(unclaimed + delegated);
    lemma_picked_contains(requested, pick_unclaimed(accounts, programs), pubkey);
    lemma_picked_contains(accounts, pick_delegated(), pubkey);
    let all = unclaimed + delegated;
    if unclaimed.contains(pubkey) {
        let i = choose|i: int| 0 <= i < unclaimed.len() && unclaimed[i] == pubkey;
        assert(all[i] == pubkey);
    }
    if delegated.contains(pubkey) {
        let i = choose|i: int| 0 <= i < delegated.len() && delegated[i] == pubkey;
        assert(all[unclaimed.len() + i] == pubkey);
    }
    if all.contains(pubkey) {
        let i = choose|i: int| 0 <= i < all.len() && all[i] == pubkey;
        if i < unclaimed.len() {
            assert(unclaimed[i] == pubkey);
        } else {
            assert(delegated[i - unclaimed.len()] == pubkey);
        }
    }
    if requested.contains(pubkey) && !is_cloned(accounts, pubkey) && !is_loaded(programs, pubkey) {
        let i = choose|i: int| 0 <= i < requested.len() && requested[i] == pubkey;
        assert(pick_unclaimed(accounts, programs)(requested[i]) == Some(pubkey));
    }
    if exists|i: int|
        0 <= i < accounts.len() && (#[trigger] accounts[i]).pubkey == pubkey
            && accounts[i].account.mode == AccountMode::Delegated {
        let i = choose|i: int|
            0 <= i < accounts.len() && (#[trigger] accounts[i]).pubkey == pubkey
                && accounts[i].account.mode == AccountMode::Delegated;
        assert(pick_delegated()(accounts[i]) == Some(pubkey));
    }
}

/// The addresses that the accounts of an instruction have.
pub open spec fn meta_keys(instruction: Instruction) -> Seq<Pubkey> {
    instruction.accounts@.map_values(|meta: AccountMeta| meta.pubkey)
}

/// The addresses that instructions name: each one's program, then its accounts.
pub open spec fn named_by(instructions: Seq<Instruction>) -> Seq<Pubkey>
    decreases instructions.len(),
{
    if instructions.len() == 0 {
        Seq::empty()
    } else {
        named_by(instructions.drop_last()) + seq![instructions.last().program_id] + meta_keys(
            instructions.last(),
        )
    }
}

/// The addresses that the actions of requests name.
pub open spec fn named_by_actions(requests: Seq<AccountCloneRequest>) -> Seq<Pubkey>
    decreases requests.len(),
{
    if requests.len() == 0 {
        Seq::empty()
    } else {
        named_by_actions(requests.drop_last()) + match requests.last().post_delegation_mode {
            ClonePostDelegationMode::ExecuteActions(bundle) => named_by(bundle.instructions()),
            _ => Seq::empty(),
        }
    }
}

fn append_named(keys: &mut Vec<Pubkey>, instructions: &Vec<Instruction>)
    ensures
        final(keys)@ == old(keys)@ + named_by(instructions@),
{
    let ghost before = keys@;
    let mut i: usize = 0;
    assert(keys@ =~= before + named_by(instructions@.take(0)));
    while i < instructions.len()
        invariant
            i <= instructions.len(),
            keys@ == before + named_by(instructions@.take(i as int)),
        decreases instructions.len() - i,
    {
        let instruction = &instructions[i];
        keys.push(instruction.program_id);
        let ghost head = keys@;
        let mut k: usize = 0;
        while k < instruction.accounts.len()
            invariant
                k <= instruction.accounts.len(),
                keys@ == head + meta_keys(*instruction).take(k as int),
            decreases instruction.accounts.len() - k,
        {
            keys.push(instruction.accounts[k].pubkey);
            k = k + 1;
            assert(keys@ =~= head + meta_keys(*instruction).take(k as int));
        }
        i = i + 1;
        proof {
            let longer = instructions@.take(i as int);
            assert(longer.drop_last() =~= instructions@.take(i - 1));
            assert(meta_keys(*instruction).take(instruction.accounts@.len() as int) =~= meta_keys(
                *instruction,
            ));
            assert(keys@ =~= before + named_by(longer));
        }
    }
    assert(instructions@.take(instructions@.len() as int) =~= instructions@);
}

/// The accounts and programs that the actions of requests need, each once.
pub fn collect_delegation_action_dependencies(accounts_to_clone: &Vec<AccountCloneRequest>) -> (r:
    Vec<Pubkey>)
    ensures
        r@ == distinct_keys(named_by_actions(accounts_to_clone@)),
{
    let mut named: Vec<Pubkey> = Vec::new();
    let mut i: usize = 0;
    while i < accounts_to_clone.len()
        invariant
            i <= accounts_to_clone.len(),
            named@ == named_by_actions(accounts_to_clone@.take(i as int)),
        decreases accounts_to_clone.len() - i,
    {
        let ghost before = named@;
        if let Some(bundle) = accounts_to_clone[i].post_delegation_mode.delegation() {
            append_named(&mut named, bundle.actions());
        }
        i = i + 1;
        proof {
            let longer = accounts_to_clone@.take(i as int);
            assert(longer.drop_last() =~= accounts_to_clone@.take(i - 1));
            assert(named@ =~= named_by_actions(longer));
        }
    }
    assert(accounts_to_clone@.take(accounts_to_clone@.len() as int) =~= accounts_to_clone@);
    let mut dependencies: Vec<Pubkey> = Vec::new();
    extend_distinct(&mut dependencies, &named);
    assert(Seq::<Pubkey>::empty() + named@ =~= named@);
    dependencies
}

/// What is cloned, in this order: programs, so that actions can run them; then accounts
/// without actions, so that actions find them; then accounts with actions.
#[derive(Debug)]
pub struct CloneBatches {
    pub programs: Vec<LoadedProgram>,
    pub without_actions: Vec<AccountCloneRequest>,
    pub with_actions: Vec<AccountCloneRequest>,
}

/// Picks the programs that may be cloned.
pub open spec fn pick_allowed(allowed: Option<Vec<Pubkey>>) -> spec_fn(LoadedProgram) -> Option<
    LoadedProgram,
> {
    |program: LoadedProgram|
        if program_allowed(allowed, program.program_id) {
            Some(program)
        } else {
            None
        }
}

/// Picks the accounts with actions, or those without.
pub open spec fn pick_with_actions(with_actions: bool) -> spec_fn(AccountCloneRequest) -> Option<
    AccountCloneRequest,
> {
    |request: AccountCloneRequest|
        if (request.post_delegation_mode is ExecuteActions) == with_actions {
            Some(request)
        } else {
            None
        }
}

/// Orders what is cloned.
pub fn order_clones(
    accounts_to_clone: Vec<AccountCloneRequest>,
    loaded_programs: Vec<LoadedProgram>,
    allowed_programs: &Option<Vec<Pubkey>>,
) -> (r: CloneBatches)
    ensures
        r.programs@ == picked(loaded_programs@, pick_allowed(*allowed_programs)),
        r.without_actions@ == picked(accounts_to_clone@, pick_with_actions(false)),
        r.with_actions@ == picked(accounts_to_clone@, pick_with_actions(true)),
{
    let ghost all_programs = loaded_programs@;
    let ghost all_accounts = accounts_to_clone@;
    let mut programs: Vec<LoadedProgram> = Vec::new();
    for program in it: loaded_programs
        invariant
            it.seq() == all_programs,
            programs@ == picked(
                all_programs.take(it.index() as int),
                pick_allowed(*allowed_programs),
            ),
    {
        proof {
            lemma_picked_step(all_programs, it.index() as int, pick_allowed(*allowed_programs));
        }
        if is_program_allowed(allowed_programs, &program.program_id) {
            programs.push(program);
        }
    }
    let mut without_actions: Vec<AccountCloneRequest> = Vec::new();
    let mut with_actions: Vec<AccountCloneRequest> = Vec::new();
    for request in it: accounts_to_clone
        invariant
            it.seq() == all_accounts,
            without_actions@ == picked(
                all_accounts.take(it.index() as int),
                pick_with_actions(false),
            ),
            with_actions@ == picked(all_accounts.take(it.index() as int), pick_with_actions(true)),
    {
        proof {
            lemma_picked_step(all_accounts, it.index() as int, pick_with_actions(false));
            lemma_picked_step(all_accounts, it.index() as int, pick_with_actions(true));
        }
        if request.post_delegation_mode.has_actions() {
            with_actions.push(request);
        } else {
            without_actions.push(request);
        }
    }
    assert(all_programs.take(all_programs.len() as int) =~= all_programs);
    assert(all_accounts.take(all_accounts.len() as int) =~= all_accounts);
    CloneBatches { programs, without_actions, with_actions }
}

} // verus!
