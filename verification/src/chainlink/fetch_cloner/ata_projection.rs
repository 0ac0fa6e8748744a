//! Token accounts that show the balance which another account holds for the rollup.
//!
//! A wallet's tokens that were delegated are held by an account of their own. The token account
//! of the wallet then shows the balance of that account.
use vstd::prelude::*;
use crate::account::{
    effective_slot, later, slot_for, Account, AccountMode, RemoteAccount, ResolvedAccount,
    SubscriptionReason,
};
use crate::chainlink::fetch_cloner::cancel::distinct;
use crate::chainlink::fetch_cloner::delegation::{
    delegated_to_other, get_delegated_to_other, is_raw_eata_account, parse_raw_eata_pda,
};
use crate::chainlink::fetch_cloner::subscription::{
    append_releases, released, SubscriptionRelease,
};
use crate::chainlink::fetch_cloner::types::{AtaAccount, AtaInfo};
use crate::cloner::{
    AccountCloneRequest, ClonePostDelegationMode, CloneSourceSlots, DelegationActions, Instruction,
};
use crate::delegation_record::DelegationRecord;
use crate::lru_map::{holds, promoted, pushed, LruMap};
use crate::pubkey::{address_at, contains_key, distinct_keys, read_address, zero_pubkey, Pubkey};

verus! {

/// The fewest bytes that name the mint and the wallet of a token account.
pub const ATA_PARTIES_SIZE: usize = 64;

/// The mint and the wallet that the bytes of a token account name, if they are such.
pub fn ata_parties(data: &[u8]) -> (r: Option<AtaInfo>)
    ensures
        r is Some <==> data@.len() >= ATA_PARTIES_SIZE,
        r matches Some(info) ==> info.mint@ == address_at(data@, 0) && info.owner@ == address_at(
            data@,
            32,
        ),
{
    if data.len() < ATA_PARTIES_SIZE {
        None
    } else {
        Some(AtaInfo { mint: read_address(data, 0), owner: read_address(data, 32) })
    }
}

/// What an account is a token account of, judged by its bytes: the address has to be one of
/// those derived of the parties that the bytes name (`derived`).
pub fn ata_info_from_layout(ata_pubkey: &Pubkey, data: &[u8], derived: &Vec<Pubkey>) -> (r: Option<
    AtaInfo,
>)
    ensures
        r is Some <==> data@.len() >= ATA_PARTIES_SIZE && derived@.contains(*ata_pubkey),
        r matches Some(info) ==> info.mint@ == address_at(data@, 0) && info.owner@ == address_at(
            data@,
            32,
        ),
{
    if contains_key(derived, ata_pubkey) {
        ata_parties(data)
    } else {
        None
    }
}

/// Whether an account is remembered as missing on chain; it is then the most recently used
/// one.
pub fn is_known_empty_eata(known_empty: &mut LruMap<()>, eata_pubkey: &Pubkey) -> (r: bool)
    requires
        old(known_empty).wf(),
    ensures
        final(known_empty).wf(),
        final(known_empty).capacity() == old(known_empty).capacity(),
        r == holds(old(known_empty).entries(), eata_pubkey.bytes),
        final(known_empty).entries() == promoted(old(known_empty).entries(), eata_pubkey.bytes),
{
    known_empty.touch(eata_pubkey)
}

/// Remembers that an account is missing on chain.
pub fn mark_eata_empty(known_empty: &mut LruMap<()>, eata_pubkey: Pubkey)
    requires
        old(known_empty).wf(),
    ensures
        final(known_empty).wf(),
        final(known_empty).capacity() == old(known_empty).capacity(),
        final(known_empty).entries() == pushed(
            old(known_empty).entries(),
            old(known_empty).capacity(),
            eata_pubkey.bytes,
            (),
        ),
{
    known_empty.push(eata_pubkey, ());
}

/// The token account that shows the balance, if the record names this validator. `from_base`
/// is the balance put into the token account as it is, which is only meant for accounts of the
/// program that holds tokens for the rollup; `from_eata` is a token account made of the holding
/// account alone.
pub open spec fn projected_account(
    record: DelegationRecord,
    validator: Pubkey,
    eata_program: Pubkey,
    from_base: Option<Account>,
    from_eata: Option<Account>,
    ata_slot: u64,
    eata_slot: u64,
) -> Option<Account> {
    let chosen = if record.owner == eata_program && from_base is Some {
        from_base
    } else {
        from_eata
    };
    match chosen {
        Some(account) => if record.authority == validator {
            Some(
                Account {
                    slot: slot_for(Some(ata_slot), eata_slot),
                    mode: AccountMode::Delegated,
                    ..account
                },
            )
        } else {
            None
        },
        None => None,
    }
}

/// Makes the token account that shows the balance.
pub fn maybe_project_delegated_ata_from_eata(
    record: &DelegationRecord,
    validator_pubkey: &Pubkey,
    eata_program: &Pubkey,
    from_base: Option<Account>,
    from_eata: Option<Account>,
    ata_slot: u64,
    eata_slot: u64,
) -> (r: Option<Account>)
    ensures
        r == projected_account(
            *record,
            *validator_pubkey,
            *eata_program,
            from_base,
            from_eata,
            ata_slot,
            eata_slot,
        ),
{
    if record.authority != *validator_pubkey {
        return None;
    }
    let base = if record.owner == *eata_program {
        from_base
    } else {
        None
    };
    let chosen = match base {
        Some(account) => Some(account),
        None => from_eata,
    };
    match chosen {
        Some(account) => {
            let mut account = account;
            account.slot = later(ata_slot, eata_slot);
            account.set_delegated(true);
            Some(account)
        },
        None => None,
    }
}

/// Whether `mode` is what runs after a clone with these actions.
pub open spec fn runs_actions(
    mode: ClonePostDelegationMode,
    source: Pubkey,
    actions: Option<Vec<Instruction>>,
) -> bool {
    if actions is Some && actions->0@.len() > 0 {
        &&& mode matches ClonePostDelegationMode::ExecuteActions(bundle)
        &&& bundle.source() == source
        &&& bundle.instructions() == actions->0@
    } else {
        mode is Plain
    }
}

/// What runs after a clone with these actions.
pub fn mode_for_actions(source: Pubkey, actions: Option<Vec<Instruction>>) -> (r:
    ClonePostDelegationMode)
    ensures
        runs_actions(r, source, actions),
{
    let bundle = match actions {
        Some(instructions) => DelegationActions::new(source, instructions),
        None => None,
    };
    ClonePostDelegationMode::from_actions(bundle)
}

/// A token account of the bank that could show a balance, with its slot and mode, and the
/// balance put into it or made into a token account.
#[derive(Debug)]
pub struct BankAta {
    pub pubkey: Pubkey,
    pub slot: u64,
    pub mode: AccountMode,
    pub from_base: Option<Account>,
    pub from_eata: Option<Account>,
}

/// An update of an account that holds tokens.
#[derive(Debug)]
pub struct EataUpdate {
    pub pubkey: Pubkey,
    pub data: Vec<u8>,
    pub slot: u64,
    /// The address derived of the wallet and the mint that its data name.
    pub derived_eata: Option<Pubkey>,
}

/// Whether an update of an account that holds tokens is shown in a token account: the record
/// names this validator, the account is one that holds tokens, and the bank has a token account
/// that is neither delegated nor undelegating.
pub open spec fn is_shown(
    update: EataUpdate,
    record: Option<DelegationRecord>,
    ata: Option<BankAta>,
    validator: Pubkey,
    eata_program: Pubkey,
) -> bool {
    &&& record matches Some(found)
    &&& found.authority == validator
    &&& is_raw_eata_account(
        update.pubkey,
        update.data@,
        found.owner,
        eata_program,
        update.derived_eata,
    )
    &&& ata matches Some(base)
    &&& base.mode != AccountMode::Delegated
    &&& base.mode != AccountMode::Transient
    &&& projected_account(
        found,
        validator,
        eata_program,
        base.from_base,
        base.from_eata,
        base.slot,
        update.slot,
    ) is Some
}

/// The request that shows an update of an account that holds tokens in a token account of the
/// bank. `ata` is the first token account of the wallet that the bank has.
pub fn maybe_build_projected_ata_clone_request_from_eata_sub_update(
    update: &EataUpdate,
    record: &Option<DelegationRecord>,
    ata: Option<BankAta>,
    actions: Option<Vec<Instruction>>,
    validator_pubkey: &Pubkey,
    eata_program: &Pubkey,
) -> (r: Option<AccountCloneRequest>)
    ensures
        r is Some <==> is_shown(*update, *record, ata, *validator_pubkey, *eata_program),
        r matches Some(request) ==> {
            &&& request.pubkey == (ata->0).pubkey
            &&& Some(request.account) == projected_account(
                record->0,
                *validator_pubkey,
                *eata_program,
                (ata->0).from_base,
                (ata->0).from_eata,
                (ata->0).slot,
                update.slot,
            )
            &&& request.commit_frequency_ms is None
            &&& request.delegated_to_other is None
            &&& runs_actions(request.post_delegation_mode, (record->0).owner, actions)
            &&& request.source_slots == Some(
                CloneSourceSlots {
                    data: (ata->0).slot,
                    view: slot_for(Some((ata->0).slot), update.slot),
                },
            )
        },
{
    let found = match record {
        Some(found) => found,
        None => {
            return None;
        },
    };
    if found.authority != *validator_pubkey {
        return None;
    }
    if parse_raw_eata_pda(
        &update.pubkey,
        update.data.as_slice(),
        &found.owner,
        eata_program,
        update.derived_eata,
    ).is_none() {
        return None;
    }
    let base = match ata {
        Some(base) => base,
        None => {
            return None;
        },
    };
    if base.mode == AccountMode::Delegated || base.mode == AccountMode::Transient {
        return None;
    }
    match maybe_project_delegated_ata_from_eata(
        found,
        validator_pubkey,
        eata_program,
        base.from_base,
        base.from_eata,
        base.slot,
        update.slot,
    ) {
        Some(account) => Some(
            AccountCloneRequest {
                pubkey: base.pubkey,
                account,
                commit_frequency_ms: None,
                post_delegation_mode: mode_for_actions(found.owner, actions),
                delegated_to_other: None,
                source_slots: Some(CloneSourceSlots::projected(base.slot, update.slot)),
            },
        ),
        None => None,
    }
}

/// Whether `place` is that of the first mark that is set; none if none is.
pub open spec fn is_first(marks: Seq<bool>, place: Option<usize>) -> bool {
    match place {
        Some(i) => i < marks.len() && marks[i as int] && forall|j: int|
            0 <= j < i ==> !(#[trigger] marks[j]),
        None => forall|j: int| 0 <= j < marks.len() ==> !(#[trigger] marks[j]),
    }
}

/// The first of the candidates that the bank has.
pub fn first_in_bank(candidates: &Vec<Pubkey>, in_bank: &Vec<bool>) -> (r: Option<usize>)
    requires
        candidates@.len() == in_bank@.len(),
    ensures
        is_first(in_bank@, r),
{
    let mut i: usize = 0;
    while i < in_bank.len()
        invariant
            i <= in_bank.len(),
            forall|j: int| 0 <= j < i ==> !(#[trigger] in_bank@[j]),
        decreases in_bank.len() - i,
    {
        if in_bank[i] {
            return Some(i);
        }
        i = i + 1;
    }
    None
}

/// Whether the account that holds a token account's balance need not be fetched: it is known to
/// be missing, and would have been heard of if it had come up.
pub fn skips_eata_fetch(was_watching: bool, subscribed: bool, known_empty: bool) -> (r: bool)
    ensures
        r == (was_watching && subscribed && known_empty),
{
    was_watching && subscribed && known_empty
}

/// What a fetch of the account that holds a balance found.
#[derive(Debug)]
pub enum EataFetch {
    Found(Account),
    /// There is none. `mark_empty` says whether that is remembered.
    Missing { mark_empty: bool },
}

/// Sorts what a fetch of the account that holds a balance found. Only the chain's own word that
/// there is none is remembered, and only if it would be heard of if it came up.
pub fn sort_eata_fetch(fetched: Option<RemoteAccount>, subscribed: bool) -> (r: EataFetch)
    ensures
        r == match fetched {
            Some(RemoteAccount::Found(ResolvedAccount::Fresh(account))) => EataFetch::Found(
                account,
            ),
            Some(RemoteAccount::NotFound(_)) => EataFetch::Missing { mark_empty: subscribed },
            _ => EataFetch::Missing { mark_empty: false },
        },
{
    match fetched {
        Some(RemoteAccount::Found(ResolvedAccount::Fresh(account))) => EataFetch::Found(account),
        Some(RemoteAccount::NotFound(_)) => EataFetch::Missing { mark_empty: subscribed },
        _ => EataFetch::Missing { mark_empty: false },
    }
}

/// What token accounts subscribe to and how they are fetched.
#[derive(Debug)]
pub struct AtaPlan {
    /// The token accounts and those that hold their balances, each once.
    pub subscribe: Vec<Pubkey>,
    /// Each token account with the one that holds its balance, and the slot to fetch at.
    pub fetches: Vec<(Pubkey, Pubkey, u64)>,
}

/// The token accounts, each followed by the account that holds its balance if it has one.
pub open spec fn ata_keys(atas: Seq<AtaAccount>, derived: Seq<Option<Pubkey>>) -> Seq<Pubkey>
    decreases atas.len(),
{
    if atas.len() == 0 {
        Seq::empty()
    } else {
        let front = ata_keys(atas.drop_last(), derived).push(atas.last().pubkey);
        match derived[atas.len() - 1] {
            Some(eata) => front.push(eata),
            None => front,
        }
    }
}

/// Plans how token accounts are fetched with the accounts that hold their balances. Where
/// `derived` has none, an address that no account has stands for it.
pub fn plan_ata_projection(
    atas: &Vec<AtaAccount>,
    derived: &Vec<Option<Pubkey>>,
    min_context_slot: Option<u64>,
) -> (r: AtaPlan)
    requires
        atas@.len() == derived@.len(),
    ensures
        r.subscribe@ == distinct_keys(ata_keys(atas@, derived@)),
        r.fetches@.len() == atas@.len(),
        forall|i: int|
            0 <= i < atas@.len() ==> {
                &&& (#[trigger] r.fetches@[i]).0 == atas@[i].pubkey
                &&& r.fetches@[i].2 == slot_for(min_context_slot, atas@[i].slot)
                &&& match derived@[i] {
                    Some(eata) => r.fetches@[i].1 == eata,
                    None => r.fetches@[i].1@ == zero_pubkey(),
                }
            },
{
    let mut keys: Vec<Pubkey> = Vec::new();
    let mut fetches: Vec<(Pubkey, Pubkey, u64)> = Vec::new();
    let mut i: usize = 0;
    while i < atas.len()
        invariant
            i <= atas.len(),
            atas@.len() == derived@.len(),
            keys@ == ata_keys(atas@.take(i as int), derived@),
            fetches@.len() == i,
            forall|j: int|
                0 <= j < i ==> {
                    &&& (#[trigger] fetches@[j]).0 == atas@[j].pubkey
                    &&& fetches@[j].2 == slot_for(min_context_slot, atas@[j].slot)
                    &&& match derived@[j] {
                        Some(eata) => fetches@[j].1 == eata,
                        None => fetches@[j].1@ == zero_pubkey(),
                    }
                },
        decreases atas.len() - i,
    {
        let slot = effective_slot(min_context_slot, atas[i].slot);
        keys.push(atas[i].pubkey);
        let companion = match derived[i] {
            Some(eata) => {
                keys.push(eata);
                eata
            },
            None => Pubkey::zero(),
        };
        fetches.push((atas[i].pubkey, companion, slot));
        i = i + 1;
        proof {
            let longer = atas@.take(i as int);
            assert(longer.drop_last() =~= atas@.take(i - 1));
            assert(keys@ =~= ata_keys(longer, derived@));
        }
    }
    assert(atas@.take(atas@.len() as int) =~= atas@);
    AtaPlan { subscribe: distinct(&keys), fetches }
}

/// A token account that was fetched, with what is known of the account that holds its balance.
#[derive(Debug)]
pub struct FetchedAta {
    pub pubkey: Pubkey,
    pub account: Account,
    pub eata: Option<FetchedEata>,
}

/// An account that holds a balance, with its record and the balance put into the token account
/// or made into one.
#[derive(Debug)]
pub struct FetchedEata {
    pub slot: u64,
    pub record: Option<(DelegationRecord, Option<Vec<Instruction>>)>,
    pub from_base: Option<Account>,
    pub from_eata: Option<Account>,
}

impl FetchedAta {
    /// The record of the account that holds the balance.
    pub open spec fn record(&self) -> Option<DelegationRecord> {
        match self.eata {
            Some(eata) => match eata.record {
                Some((record, _)) => Some(record),
                None => None,
            },
            None => None,
        }
    }

    /// The token account that shows the balance.
    pub open spec fn shown(&self, validator: Pubkey, eata_program: Pubkey) -> Option<Account> {
        match self.record() {
            Some(record) => projected_account(
                record,
                validator,
                eata_program,
                (self.eata->0).from_base,
                (self.eata->0).from_eata,
                self.account.slot,
                (self.eata->0).slot,
            ),
            None => None,
        }
    }

    /// Whether `request` brings the token account in: showing the balance, with the actions of
    /// the account that holds it, if that is delegated here; as it is otherwise.
    pub open spec fn is_request(
        &self,
        validator: Pubkey,
        eata_program: Pubkey,
        request: AccountCloneRequest,
    ) -> bool {
        &&& request.pubkey == self.pubkey
        &&& request.commit_frequency_ms == match self.record() {
            Some(record) => Some(record.commit_frequency_ms),
            None => None,
        }
        &&& request.delegated_to_other == match self.record() {
            Some(record) => delegated_to_other(record, validator),
            None => None,
        }
        &&& match self.shown(validator, eata_program) {
            Some(account) => {
                &&& request.account == account
                &&& runs_actions(
                    request.post_delegation_mode,
                    (self.record()->0).owner,
                    ((self.eata->0).record->0).1,
                )
                &&& request.source_slots == Some(
                    CloneSourceSlots {
                        data: self.account.slot,
                        view: slot_for(Some(self.account.slot), (self.eata->0).slot),
                    },
                )
            },
            None => {
                &&& request.account == self.account
                &&& request.post_delegation_mode is Plain
                &&& request.source_slots is None
            },
        }
    }
}

/// The request that brings a token account in.
pub fn request_for_ata(ata: FetchedAta, validator_pubkey: &Pubkey, eata_program: &Pubkey) -> (r:
    AccountCloneRequest)
    ensures
        ata.is_request(*validator_pubkey, *eata_program, r),
{
    let mut request = AccountCloneRequest::plain(ata.pubkey, ata.account);
    if let Some(eata) = ata.eata {
        if let Some((record, actions)) = eata.record {
            request.delegated_to_other = get_delegated_to_other(validator_pubkey, &record);
            request.commit_frequency_ms = Some(record.commit_frequency_ms);
            let ata_slot = request.account.slot;
            if let Some(account) = maybe_project_delegated_ata_from_eata(
                &record,
                validator_pubkey,
                eata_program,
                eata.from_base,
                eata.from_eata,
                ata_slot,
                eata.slot,
            ) {
                request.account = account;
                request.post_delegation_mode = mode_for_actions(record.owner, actions);
                request.source_slots = Some(CloneSourceSlots::projected(ata_slot, eata.slot));
            }
        }
    }
    request
}

/// The requests for token accounts, and what is given back: what was subscribed to for the
/// fetch, and the projection reason if it was had.
pub fn resolve_ata_with_eata_projection(
    atas: Vec<FetchedAta>,
    subscribed: &Vec<Pubkey>,
    acquired: bool,
    validator_pubkey: &Pubkey,
    eata_program: &Pubkey,
) -> (r: (Vec<AccountCloneRequest>, Vec<SubscriptionRelease>))
    ensures
        r.0@.len() == atas@.len(),
        forall|i: int|
            0 <= i < atas@.len() ==> (#[trigger] atas@[i]).is_request(
                *validator_pubkey,
                *eata_program,
                r.0@[i],
            ),
        r.1@ == released(subscribed@, SubscriptionReason::DirectAccount) + if acquired {
            released(subscribed@, SubscriptionReason::AtaProjection)
        } else {
            Seq::empty()
        },
{
    let ghost all = atas@;
    let mut requests: Vec<AccountCloneRequest> = Vec::new();
    for ata in it: atas
        invariant
            it.seq() == all,
            requests@.len() == it.index(),
            forall|j: int|
                0 <= j < it.index() ==> (#[trigger] all[j]).is_request(
                    *validator_pubkey,
                    *eata_program,
                    requests@[j],
                ),
    {
        requests.push(request_for_ata(ata, validator_pubkey, eata_program));
    }
    let mut releases: Vec<SubscriptionRelease> = Vec::new();
    append_releases(&mut releases, subscribed, SubscriptionReason::DirectAccount);
    if acquired {
        append_releases(&mut releases, subscribed, SubscriptionReason::AtaProjection);
    }
    assert(releases@ =~= released(subscribed@, SubscriptionReason::DirectAccount) + if acquired {
        released(subscribed@, SubscriptionReason::AtaProjection)
    } else {
        Seq::empty()
    });
    (requests, releases)
}

/// A token account shows the balance of another account only if that is delegated to this
/// very validator; the account shown is then run here, and is as new as the newer of the two.
pub proof fn law_shown_balances_are_delegated_here(
    ata: FetchedAta,
    validator: Pubkey,
    eata_program: Pubkey,
    request: AccountCloneRequest,
)
    requires
        ata.is_request(validator, eata_program, request),
        ata.shown(validator, eata_program) is Some,
    ensures
        (ata.record()->0).authority == validator,
        request.account.mode == AccountMode::Delegated,
        request.delegated_to_other is None,
        request.account.slot >= ata.account.slot,
        request.account.slot >= (ata.eata->0).slot,
{
}

} // verus!
