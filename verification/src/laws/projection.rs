//! What holds of token accounts that show the balances of other accounts.
use vstd::prelude::*;
use crate::account::{Account, AccountMode, RemoteAccount, ResolvedAccount, SubscriptionReason};
use crate::chainlink::fetch_cloner::ata_projection::{
    ata_info_from_layout, ata_keys, ata_parties, first_in_bank, is_first, is_known_empty_eata,
    mark_eata_empty, maybe_build_projected_ata_clone_request_from_eata_sub_update,
    maybe_project_delegated_ata_from_eata, mode_for_actions, plan_ata_projection, request_for_ata,
    resolve_ata_with_eata_projection, skips_eata_fetch, sort_eata_fetch, AtaPlan, BankAta,
    EataFetch, EataUpdate, FetchedAta, FetchedEata,
};
use crate::chainlink::fetch_cloner::subscription::{released, SubscriptionRelease};
use crate::chainlink::fetch_cloner::types::{AtaAccount, AtaInfo};
use crate::cloner::{AccountCloneRequest, ClonePostDelegationMode, Instruction};
use crate::delegation_record::DelegationRecord;
use crate::laws::delegation::{is_nobody, lemma_nobody};
use crate::lru_map::{lemma_position_of, LruMap};
use crate::pubkey::{lemma_distinct_keys, Pubkey};

verus! {

/// A balance is shown exactly if the record names this very validator and there is an account
/// to show it in.
pub proof fn law_own_balances_are_shown(
    record: DelegationRecord,
    validator: Pubkey,
    eata_program: Pubkey,
    from_base: Option<Account>,
    from_eata: Option<Account>,
    ata_slot: u64,
    eata_slot: u64,
    r: Option<Account>,
)
    requires
        call_ensures(
            maybe_project_delegated_ata_from_eata,
            (&record, &validator, &eata_program, from_base, from_eata, ata_slot, eata_slot),
            r,
        ),
    ensures
        record.authority != validator ==> r is None,
        record.authority == validator && from_eata is Some ==> r is Some,
        record.authority == validator && record.owner == eata_program && from_base is Some ==> r
            is Some,
        from_eata is None && (from_base is None || record.owner != eata_program) ==> r is None,
{
}

/// A balance that can be put into the token account as it is on chain is put there: the account
/// keeps its owner, data and lamports, whatever could be made of the holding account alone. So
/// an account of another token program never becomes one of the usual token program.
pub proof fn law_token_accounts_keep_their_program(
    record: DelegationRecord,
    validator: Pubkey,
    eata_program: Pubkey,
    from_base: Option<Account>,
    from_eata: Option<Account>,
    ata_slot: u64,
    eata_slot: u64,
    r: Option<Account>,
)
    requires
        call_ensures(
            maybe_project_delegated_ata_from_eata,
            (&record, &validator, &eata_program, from_base, from_eata, ata_slot, eata_slot),
            r,
        ),
        record.authority == validator,
        record.owner == eata_program,
        from_base is Some,
    ensures
        r matches Some(account) && {
            &&& account.owner == (from_base->0).owner
            &&& account.data == (from_base->0).data
            &&& account.lamports == (from_base->0).lamports
            &&& account.executable == (from_base->0).executable
            &&& account.confined == (from_base->0).confined
            &&& account.compressed == (from_base->0).compressed
        },
{
}

/// A balance that cannot be put there is shown in an account made of the holding account.
pub proof fn law_balances_are_made_into_accounts(
    record: DelegationRecord,
    validator: Pubkey,
    eata_program: Pubkey,
    from_base: Option<Account>,
    from_eata: Option<Account>,
    ata_slot: u64,
    eata_slot: u64,
    r: Option<Account>,
)
    requires
        call_ensures(
            maybe_project_delegated_ata_from_eata,
            (&record, &validator, &eata_program, from_base, from_eata, ata_slot, eata_slot),
            r,
        ),
        record.authority == validator,
        record.owner != eata_program || from_base is None,
        from_eata is Some,
    ensures
        r matches Some(account) && {
            &&& account.owner == (from_eata->0).owner
            &&& account.data == (from_eata->0).data
            &&& account.lamports == (from_eata->0).lamports
        },
{
}

/// A shown balance is run by the rollup, and as new as the newer of the token account and the
/// account that holds the balance.
pub proof fn law_shown_balances_are_current(
    record: DelegationRecord,
    validator: Pubkey,
    eata_program: Pubkey,
    from_base: Option<Account>,
    from_eata: Option<Account>,
    ata_slot: u64,
    eata_slot: u64,
    r: Option<Account>,
)
    requires
        call_ensures(
            maybe_project_delegated_ata_from_eata,
            (&record, &validator, &eata_program, from_base, from_eata, ata_slot, eata_slot),
            r,
        ),
        r is Some,
    ensures
        (r->0).mode == AccountMode::Delegated,
        (r->0).slot >= ata_slot && (r->0).slot >= eata_slot,
        (r->0).slot == ata_slot || (r->0).slot == eata_slot,
{
}

/// The request that brings a token account in shows the balance if it can be shown, and takes
/// the account as it is on chain otherwise. The actions of the holding account run only with
/// its balance.
pub proof fn law_token_accounts_are_brought_in(
    pubkey: Pubkey,
    account: Account,
    eata: FetchedEata,
    record: DelegationRecord,
    actions: Option<Vec<Instruction>>,
    validator: Pubkey,
    eata_program: Pubkey,
    shown: Option<Account>,
    r: AccountCloneRequest,
)
    requires
        eata.record == Some((record, actions)),
        call_ensures(
            request_for_ata,
            (FetchedAta { pubkey, account, eata: Some(eata) }, &validator, &eata_program),
            r,
        ),
        call_ensures(
            maybe_project_delegated_ata_from_eata,
            (
                &record,
                &validator,
                &eata_program,
                eata.from_base,
                eata.from_eata,
                account.slot,
                eata.slot,
            ),
            shown,
        ),
    ensures
        r.pubkey == pubkey,
        r.commit_frequency_ms == Some(record.commit_frequency_ms),
        record.authority != validator && !is_nobody(record.authority) ==> r.delegated_to_other
            == Some(record.authority),
        record.authority == validator || is_nobody(record.authority) ==> r.delegated_to_other
            is None,
        shown is None ==> r.account == account && r.post_delegation_mode is Plain
            && r.source_slots is None,
        shown matches Some(shown) ==> {
            &&& r.account == shown
            &&& r.source_slots matches Some(slots)
            &&& slots.data == account.slot
            &&& slots.view >= account.slot && slots.view >= eata.slot
            &&& slots.view == account.slot || slots.view == eata.slot
            &&& match actions {
                Some(list) if list@.len() > 0 => {
                    &&& r.post_delegation_mode matches ClonePostDelegationMode::ExecuteActions(
                        bundle,
                    )
                    &&& bundle.source() == record.owner
                    &&& bundle.instructions() == list@
                },
                _ => r.post_delegation_mode is Plain,
            }
        },
{
    lemma_nobody(record.authority);
}

/// A token account without a holding account, or whose holding account has no record, is taken
/// as it is on chain.
pub proof fn law_plain_token_accounts_are_brought_in(
    ata: FetchedAta,
    validator: Pubkey,
    eata_program: Pubkey,
    r: AccountCloneRequest,
)
    requires
        call_ensures(request_for_ata, (ata, &validator, &eata_program), r),
        ata.eata matches Some(eata) ==> eata.record is None,
    ensures
        r.pubkey == ata.pubkey,
        r.account == ata.account,
        r.commit_frequency_ms is None,
        r.delegated_to_other is None,
        r.post_delegation_mode is Plain,
        r.source_slots is None,
{
}

/// Each token account gets its request, and all that was subscribed to for the fetch is given
/// back.
pub proof fn law_all_token_accounts_are_brought_in(
    atas: Vec<FetchedAta>,
    subscribed: Vec<Pubkey>,
    acquired: bool,
    validator: Pubkey,
    eata_program: Pubkey,
    i: int,
    k: int,
    r: (Vec<AccountCloneRequest>, Vec<SubscriptionRelease>),
)
    requires
        call_ensures(
            resolve_ata_with_eata_projection,
            (atas, &subscribed, acquired, &validator, &eata_program),
            r,
        ),
        0 <= i < atas@.len(),
        0 <= k < subscribed@.len(),
    ensures
        r.0@.len() == atas@.len(),
        r.0@[i].pubkey == atas@[i].pubkey,
        r.0@[i].account == atas@[i].account || (atas@[i].eata is Some && r.0@[i].account.mode
            == AccountMode::Delegated),
        r.1@.len() == if acquired {
            2 * subscribed@.len()
        } else {
            subscribed@.len()
        },
        r.1@.contains(
            SubscriptionRelease {
                pubkey: subscribed@[k],
                reason: SubscriptionReason::DirectAccount,
            },
        ),
        acquired ==> r.1@.contains(
            SubscriptionRelease {
                pubkey: subscribed@[k],
                reason: SubscriptionReason::AtaProjection,
            },
        ),
{
    assert(atas@[i].is_request(validator, eata_program, r.0@[i]));
    let direct = released(subscribed@, SubscriptionReason::DirectAccount);
    assert(r.1@[k] == direct[k]);
    if acquired {
        let shown = released(subscribed@, SubscriptionReason::AtaProjection);
        assert(r.1@[direct.len() + k] == shown[k]);
    }
}

/// An update of a holding account is shown in the bank's token account exactly if its record
/// names this validator, it holds tokens, and the token account is neither delegated nor
/// undelegating and can show the balance; and then as a fetch would show it.
pub proof fn law_updates_of_balances_are_shown(
    update: EataUpdate,
    record: DelegationRecord,
    ata: BankAta,
    actions: Option<Vec<Instruction>>,
    validator: Pubkey,
    eata_program: Pubkey,
    shown: Option<Account>,
    r: Option<AccountCloneRequest>,
)
    requires
        call_ensures(
            maybe_build_projected_ata_clone_request_from_eata_sub_update,
            (&update, &Some(record), Some(ata), actions, &validator, &eata_program),
            r,
        ),
        call_ensures(
            maybe_project_delegated_ata_from_eata,
            (
                &record,
                &validator,
                &eata_program,
                ata.from_base,
                ata.from_eata,
                ata.slot,
                update.slot,
            ),
            shown,
        ),
    ensures
        r is Some <==> {
            &&& record.authority == validator
            &&& record.owner == eata_program
            &&& update.data@.len() >= 72
            &&& update.derived_eata == Some(update.pubkey)
            &&& ata.mode != AccountMode::Delegated
            &&& ata.mode != AccountMode::Transient
            &&& ata.from_base is Some || ata.from_eata is Some
        },
        r matches Some(request) ==> {
            &&& request.pubkey == ata.pubkey
            &&& Some(request.account) == shown
            &&& request.commit_frequency_ms is None
            &&& request.delegated_to_other is None
            &&& match actions {
                Some(list) if list@.len() > 0 => {
                    &&& request.post_delegation_mode matches ClonePostDelegationMode::ExecuteActions(
                        bundle,
                    )
                    &&& bundle.source() == record.owner
                    &&& bundle.instructions() == list@
                },
                _ => request.post_delegation_mode is Plain,
            }
        },
{
}

/// Without a record, or without a token account in the bank, nothing is shown.
pub proof fn law_nothing_to_show(
    update: EataUpdate,
    record: Option<DelegationRecord>,
    ata: Option<BankAta>,
    actions: Option<Vec<Instruction>>,
    validator: Pubkey,
    eata_program: Pubkey,
    r: Option<AccountCloneRequest>,
)
    requires
        call_ensures(
            maybe_build_projected_ata_clone_request_from_eata_sub_update,
            (&update, &record, ata, actions, &validator, &eata_program),
            r,
        ),
        record is None || ata is None,
    ensures
        r is None,
{
}

/// Actions run after a clone exactly if there are any, all of them, in the name of their
/// program.
pub proof fn law_actions_run(
    source: Pubkey,
    actions: Option<Vec<Instruction>>,
    r: ClonePostDelegationMode,
)
    requires
        call_ensures(mode_for_actions, (source, actions), r),
    ensures
        match actions {
            Some(list) if list@.len() > 0 => {
                &&& r matches ClonePostDelegationMode::ExecuteActions(bundle)
                &&& bundle.source() == source
                &&& bundle.instructions() == list@
            },
            _ => r is Plain,
        },
{
}

/// An account is a token account exactly if its address is one of those derived of the parties
/// that its first bytes name: the mint, then the wallet.
pub proof fn law_token_accounts_are_recognised(
    pubkey: Pubkey,
    data: &[u8],
    derived: Vec<Pubkey>,
    r: Option<AtaInfo>,
)
    requires
        call_ensures(ata_info_from_layout, (&pubkey, data, &derived), r),
    ensures
        r is Some <==> data@.len() >= 64 && derived@.contains(pubkey),
        r matches Some(info) ==> info.mint@ == data@.subrange(0, 32) && info.owner@
            == data@.subrange(32, 64),
{
}

/// An account that was marked as missing is known to be, and marking changes nothing about any
/// other unless there is no room.
pub proof fn law_missing_accounts_are_remembered(known: &mut LruMap<()>, eata: Pubkey)
    requires
        old(known).wf(),
        call_ensures(mark_eata_empty, (known, eata), ()),
    ensures
        final(known).value(eata) is Some,
        final(known).entries().len() <= final(known).capacity(),
        final(known).capacity() == old(known).capacity(),
{
    old(known).lemma_wf();
    final(known).lemma_wf();
    assert(final(known).entries()[0] == (eata.bytes, ()));
    lemma_position_of(final(known).entries(), 0);
}

/// Asking whether an account is known to be missing tells exactly that.
pub proof fn law_missing_accounts_are_known(known: &mut LruMap<()>, eata: Pubkey, r: bool)
    requires
        old(known).wf(),
        call_ensures(is_known_empty_eata, (known, &eata), r),
    ensures
        r <==> old(known).value(eata) is Some,
        final(known).entries().len() == old(known).entries().len(),
{
    crate::lru_map::lemma_position(old(known).entries(), eata.bytes);
}

/// The first token account that the bank has is taken, and one is taken if there is one.
pub proof fn law_first_token_account_is_taken(
    candidates: Vec<Pubkey>,
    in_bank: Vec<bool>,
    r: Option<usize>,
    j: int,
)
    requires
        candidates@.len() == in_bank@.len(),
        call_ensures(first_in_bank, (&candidates, &in_bank), r),
        0 <= j < in_bank@.len(),
        in_bank@[j],
    ensures
        r matches Some(i) && i <= j && in_bank@[i as int],
{
    assert(is_first(in_bank@, r));
}

/// A holding account is not fetched only if it is known to be missing and would have been heard
/// of.
pub proof fn law_holding_accounts_are_fetched(
    was_watching: bool,
    subscribed: bool,
    known_empty: bool,
    r: bool,
)
    requires
        call_ensures(skips_eata_fetch, (was_watching, subscribed, known_empty), r),
    ensures
        !was_watching ==> !r,
        !subscribed ==> !r,
        !known_empty ==> !r,
        was_watching && subscribed && known_empty ==> r,
{
}

/// A holding account that the chain has is found. That it is missing is remembered only on the
/// word of the chain, and only if it would be heard of.
pub proof fn law_holding_accounts_are_found(
    account: Account,
    slot: u64,
    bank_key: Pubkey,
    subscribed: bool,
    found: EataFetch,
    missing: EataFetch,
    failed: EataFetch,
    local: EataFetch,
)
    requires
        call_ensures(
            sort_eata_fetch,
            (Some(RemoteAccount::Found(ResolvedAccount::Fresh(account))), subscribed),
            found,
        ),
        call_ensures(sort_eata_fetch, (Some(RemoteAccount::NotFound(slot)), subscribed), missing),
        call_ensures(sort_eata_fetch, (None::<RemoteAccount>, subscribed), failed),
        call_ensures(
            sort_eata_fetch,
            (Some(RemoteAccount::Found(ResolvedAccount::Bank(bank_key, slot))), subscribed),
            local,
        ),
    ensures
        found == EataFetch::Found(account),
        missing == (EataFetch::Missing { mark_empty: subscribed }),
        failed == (EataFetch::Missing { mark_empty: false }),
        local == (EataFetch::Missing { mark_empty: false }),
{
}

proof fn lemma_ata_keys(atas: Seq<AtaAccount>, derived: Seq<Option<Pubkey>>, i: int)
    requires
        0 <= i < atas.len(),
    ensures
        ata_keys(atas, derived).contains(atas[i].pubkey),
        derived[i] matches Some(eata) ==> ata_keys(atas, derived).contains(eata),
    decreases atas.len(),
{
    let short = atas.drop_last();
    let front = ata_keys(short, derived);
    let middle = front.push(atas.last().pubkey);
    let all = ata_keys(atas, derived);
    assert(forall|n: int| 0 <= n < middle.len() ==> all[n] == middle[n]);
    if i < short.len() {
        lemma_ata_keys(short, derived, i);
        assert(short[i] == atas[i]);
        let n = choose|n: int| 0 <= n < front.len() && front[n] == atas[i].pubkey;
        assert(all[n] == middle[n] && middle[n] == front[n]);
        if derived[i] is Some {
            let m = choose|m: int| 0 <= m < front.len() && front[m] == derived[i]->0;
            assert(all[m] == middle[m] && middle[m] == front[m]);
        }
    } else {
        assert(middle[front.len() as int] == atas[i].pubkey);
        assert(all[front.len() as int] == atas[i].pubkey);
        if derived[i] is Some {
            assert(all.last() == derived[i]->0);
            assert(all[all.len() - 1] == derived[i]->0);
        }
    }
}

/// Every token account is subscribed to and fetched together with the account that holds its
/// balance, at its own slot or a later one that is asked for; none is subscribed to twice.
pub proof fn law_token_accounts_are_fetched_with_their_balances(
    atas: Vec<AtaAccount>,
    derived: Vec<Option<Pubkey>>,
    min_context_slot: Option<u64>,
    i: int,
    r: AtaPlan,
)
    requires
        atas@.len() == derived@.len(),
        call_ensures(plan_ata_projection, (&atas, &derived, min_context_slot), r),
        0 <= i < atas@.len(),
    ensures
        r.subscribe@.contains(atas@[i].pubkey),
        derived@[i] matches Some(eata) ==> r.subscribe@.contains(eata) && r.fetches@[i].1 == eata,
        derived@[i] is None ==> is_nobody(r.fetches@[i].1),
        r.subscribe@.no_duplicates(),
        r.fetches@.len() == atas@.len(),
        r.fetches@[i].0 == atas@[i].pubkey,
        r.fetches@[i].2 >= atas@[i].slot,
        min_context_slot matches Some(min) ==> r.fetches@[i].2 >= min && (r.fetches@[i].2 == min
            || r.fetches@[i].2 == atas@[i].slot),
        min_context_slot is None ==> r.fetches@[i].2 == atas@[i].slot,
{
    lemma_distinct_keys(ata_keys(atas@, derived@));
    lemma_ata_keys(atas@, derived@, i);
    lemma_nobody(r.fetches@[i].1);
}

/// A token account names its mint in its first bytes and its wallet in the next.
pub proof fn law_token_accounts_name_their_parties(data: &[u8], k: int, r: Option<AtaInfo>)
    requires
        call_ensures(ata_parties, (data,), r),
        0 <= k < 32,
    ensures
        r is Some <==> data@.len() >= 64,
        r matches Some(info) ==> info.mint@[k] == data@[k] && info.owner@[k] == data@[32 + k],
{
}

} // verus!
