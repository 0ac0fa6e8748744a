//! Which of the accounts that are asked for have to be fetched.
use vstd::prelude::*;
use crate::account::AccountMode;
use crate::chainlink::errors::ChainlinkError;
use crate::chainlink::fetch_cloner::cancel::distinct;
use crate::chainlink::fetch_cloner::types::RefreshDecision;
use crate::lists::{lemma_picked_step, picked};
use crate::pubkey::{append_keys, contains_key, copy_keys, distinct_keys, Pubkey};

verus! {

/// The seconds after which a check of an undelegating account is given up.
pub const UNDELEGATING_CHECK_TIMEOUT_SECS: u64 = 5;

/// An account that is asked for, with its slot and mode in the bank if it is there.
#[derive(Clone, Copy, Debug)]
pub struct PrecheckedAccount {
    pub pubkey: Pubkey,
    pub local: Option<(u64, AccountMode)>,
}

/// What the bank says of an account that is asked for.
#[derive(Clone, Copy, Debug, PartialEq, Eq, Structural)]
pub enum PrecheckClass {
    /// It is there.
    Present,
    /// It is undelegating, and must not be replaced.
    StillUndelegating,
    /// It has to be fetched whatever the bank has.
    ForcedRefresh,
    /// It is undelegating: the chain has to be asked.
    CheckUndelegating,
    /// It is not there.
    Absent,
}

/// What the bank says of an account. A forced refresh replaces an undelegating account only if
/// a later delegation of it is confirmed.
pub open spec fn precheck_class(
    account: PrecheckedAccount,
    forced: Seq<Pubkey>,
    confirmed_redelegation: Option<(Pubkey, u64)>,
) -> PrecheckClass {
    if forced.contains(account.pubkey) {
        match account.local {
            Some((slot, AccountMode::Transient)) => if confirmed_redelegation matches Some(
                (confirmed, delegation_slot),
            ) && confirmed == account.pubkey && delegation_slot > slot {
                PrecheckClass::ForcedRefresh
            } else {
                PrecheckClass::StillUndelegating
            },
            _ => PrecheckClass::ForcedRefresh,
        }
    } else {
        match account.local {
            Some((_, AccountMode::Transient)) => PrecheckClass::CheckUndelegating,
            Some(_) => PrecheckClass::Present,
            None => PrecheckClass::Absent,
        }
    }
}

/// Tells what the bank says of an account.
pub fn precheck_account(
    account: &PrecheckedAccount,
    forced: &Vec<Pubkey>,
    confirmed_redelegation: Option<(Pubkey, u64)>,
) -> (r: PrecheckClass)
    ensures
        r == precheck_class(*account, forced@, confirmed_redelegation),
{
    if contains_key(forced, &account.pubkey) {
        match account.local {
            Some((slot, AccountMode::Transient)) => {
                if let Some((confirmed, delegation_slot)) = confirmed_redelegation {
                    if confirmed == account.pubkey && delegation_slot > slot {
                        return PrecheckClass::ForcedRefresh;
                    }
                }
                PrecheckClass::StillUndelegating
            },
            _ => PrecheckClass::ForcedRefresh,
        }
    } else {
        match account.local {
            Some((_, AccountMode::Transient)) => PrecheckClass::CheckUndelegating,
            Some(_) => PrecheckClass::Present,
            None => PrecheckClass::Absent,
        }
    }
}

/// The accounts that are asked for, by what the bank says of them.
#[derive(Debug)]
pub struct Precheck {
    pub present: Vec<Pubkey>,
    pub still_undelegating: Vec<Pubkey>,
    pub forced_refresh: Vec<Pubkey>,
    /// Those to ask the chain about, with their slots in the bank.
    pub check_undelegating: Vec<(Pubkey, u64)>,
    pub absent: Vec<Pubkey>,
}

/// Picks the accounts of one class.
pub open spec fn pick_of_class(
    class: PrecheckClass,
    forced: Seq<Pubkey>,
    confirmed: Option<(Pubkey, u64)>,
) -> spec_fn(PrecheckedAccount) -> Option<Pubkey> {
    |account: PrecheckedAccount|
        if precheck_class(account, forced, confirmed) == class {
            Some(account.pubkey)
        } else {
            None
        }
}

/// Picks the accounts to ask the chain about.
pub open spec fn pick_to_check(forced: Seq<Pubkey>, confirmed: Option<(Pubkey, u64)>) -> spec_fn(
    PrecheckedAccount,
) -> Option<(Pubkey, u64)> {
    |account: PrecheckedAccount|
        if precheck_class(account, forced, confirmed) == PrecheckClass::CheckUndelegating {
            Some((account.pubkey, (account.local->0).0))
        } else {
            None
        }
}

/// Sorts the accounts that are asked for by what the bank says of them.
pub fn precheck_accounts(
    accounts: &Vec<PrecheckedAccount>,
    forced: &Vec<Pubkey>,
    confirmed_redelegation: Option<(Pubkey, u64)>,
) -> (r: Precheck)
    ensures
        r.present@ == picked(
            accounts@,
            pick_of_class(PrecheckClass::Present, forced@, confirmed_redelegation),
        ),
        r.still_undelegating@ == picked(
            accounts@,
            pick_of_class(PrecheckClass::StillUndelegating, forced@, confirmed_redelegation),
        ),
        r.forced_refresh@ == picked(
            accounts@,
            pick_of_class(PrecheckClass::ForcedRefresh, forced@, confirmed_redelegation),
        ),
        r.check_undelegating@ == picked(
            accounts@,
            pick_to_check(forced@, confirmed_redelegation),
        ),
        r.absent@ == picked(
            accounts@,
            pick_of_class(PrecheckClass::Absent, forced@, confirmed_redelegation),
        ),
{
    let ghost c = confirmed_redelegation;
    let ghost f = forced@;
    let mut present: Vec<Pubkey> = Vec::new();
    let mut still_undelegating: Vec<Pubkey> = Vec::new();
    let mut forced_refresh: Vec<Pubkey> = Vec::new();
    let mut check_undelegating: Vec<(Pubkey, u64)> = Vec::new();
    let mut absent: Vec<Pubkey> = Vec::new();
    let mut i: usize = 0;
    while i < accounts.len()
        invariant
            i <= accounts.len(),
            f == forced@,
            c == confirmed_redelegation,
            present@ == picked(
                accounts@.take(i as int),
                pick_of_class(PrecheckClass::Present, f, c),
            ),
            still_undelegating@ == picked(
                accounts@.take(i as int),
                pick_of_class(PrecheckClass::StillUndelegating, f, c),
            ),
            forced_refresh@ == picked(
                accounts@.take(i as int),
                pick_of_class(PrecheckClass::ForcedRefresh, f, c),
            ),
            check_undelegating@ == picked(accounts@.take(i as int), pick_to_check(f, c)),
            absent@ == picked(accounts@.take(i as int), pick_of_class(PrecheckClass::Absent, f, c)),
        decreases accounts.len() - i,
    {
        proof {
            lemma_picked_step(
                accounts@,
                i as int,
                pick_of_class(PrecheckClass::Present, f, c),
            );
            lemma_picked_step(
                accounts@,
                i as int,
                pick_of_class(PrecheckClass::StillUndelegating, f, c),
            );
            lemma_picked_step(
                accounts@,
                i as int,
                pick_of_class(PrecheckClass::ForcedRefresh, f, c),
            );
            lemma_picked_step(accounts@, i as int, pick_to_check(f, c));
            lemma_picked_step(accounts@, i as int, pick_of_class(PrecheckClass::Absent, f, c));
        }
        let account = accounts[i];
        match precheck_account(&account, forced, confirmed_redelegation) {
            PrecheckClass::Present => present.push(account.pubkey),
            PrecheckClass::StillUndelegating => still_undelegating.push(account.pubkey),
            PrecheckClass::ForcedRefresh => forced_refresh.push(account.pubkey),
            PrecheckClass::CheckUndelegating => {
                if let Some((slot, _)) = account.local {
                    check_undelegating.push((account.pubkey, slot));
                }
            },
            PrecheckClass::Absent => absent.push(account.pubkey),
        }
        i = i + 1;
    }
    assert(accounts@.take(accounts@.len() as int) =~= accounts@);
    Precheck { present, still_undelegating, forced_refresh, check_undelegating, absent }
}

/// What the chain said of undelegating accounts; nothing if it took too long to say.
pub type Checked = Vec<(Pubkey, Option<RefreshDecision>)>;

/// Picks the undelegating accounts to fetch again.
pub open spec fn pick_refreshed() -> spec_fn((Pubkey, Option<RefreshDecision>)) -> Option<Pubkey> {
    |checked: (Pubkey, Option<RefreshDecision>)|
        match checked.1 {
            Some(RefreshDecision::Yes) => Some(checked.0),
            Some(RefreshDecision::YesAndMarkEmptyIfNotFound) => Some(checked.0),
            _ => None,
        }
}

/// Picks the undelegating accounts that an empty one takes the place of if the chain does not
/// have them.
pub open spec fn pick_emptied() -> spec_fn((Pubkey, Option<RefreshDecision>)) -> Option<Pubkey> {
    |checked: (Pubkey, Option<RefreshDecision>)|
        match checked.1 {
            Some(RefreshDecision::YesAndMarkEmptyIfNotFound) => Some(checked.0),
            _ => None,
        }
}

/// Picks the undelegating accounts that stay as they are: the chain says so, or says nothing
/// in time.
pub open spec fn pick_kept() -> spec_fn((Pubkey, Option<RefreshDecision>)) -> Option<Pubkey> {
    |checked: (Pubkey, Option<RefreshDecision>)|
        match checked.1 {
            Some(RefreshDecision::No) => Some(checked.0),
            None => Some(checked.0),
            _ => None,
        }
}

/// What is fetched, and which of it an empty account takes the place of if the chain does not
/// have it.
#[derive(Debug)]
pub struct FetchPlan {
    pub fetch: Vec<Pubkey>,
    pub mark_empty: Option<Vec<Pubkey>>,
}

/// The accounts that stay as the bank has them.
pub open spec fn kept_in_bank(precheck: Precheck, checked: Seq<(Pubkey, Option<RefreshDecision>)>) -> Seq<Pubkey> {
    precheck.present@ + precheck.still_undelegating@ + picked(checked, pick_kept())
}

/// The accounts that are fetched though the bank has them.
pub open spec fn refreshed(precheck: Precheck, checked: Seq<(Pubkey, Option<RefreshDecision>)>) -> Seq<Pubkey> {
    precheck.forced_refresh@ + picked(checked, pick_refreshed())
}

/// Picks the accounts to fetch: those that do not stay as the bank has them, and that have to
/// be refreshed or are for this caller to load.
pub open spec fn pick_fetched(kept: Seq<Pubkey>, refresh: Seq<Pubkey>, load: Seq<Pubkey>) -> spec_fn(
    Pubkey,
) -> Option<Pubkey> {
    |pubkey: Pubkey|
        if !kept.contains(pubkey) && (refresh.contains(pubkey) || load.contains(pubkey)) {
            Some(pubkey)
        } else {
            None
        }
}

/// Decides what is fetched. `loads` are the missing accounts that this caller has to load;
/// another caller loads the other missing ones.
pub fn plan_refresh(
    pubkeys: &Vec<Pubkey>,
    precheck: &Precheck,
    checked: &Checked,
    loads: &Vec<Pubkey>,
    mark_empty_if_not_found: Option<&Vec<Pubkey>>,
) -> (r: FetchPlan)
    ensures
        r.fetch@ == picked(
            pubkeys@,
            pick_fetched(
                kept_in_bank(*precheck, checked@),
                refreshed(*precheck, checked@),
                loads@,
            ),
        ),
        ({
            let marked = distinct_keys(
                match mark_empty_if_not_found {
                    Some(keys) => keys@,
                    None => Seq::empty(),
                } + picked(checked@, pick_emptied()),
            );
            match r.mark_empty {
                Some(keys) => marked.len() > 0 && keys@ == marked,
                None => marked.len() == 0,
            }
        }),
{
    let mut kept = copy_keys(&precheck.present);
    append_keys(&mut kept, &precheck.still_undelegating);
    let mut refresh = copy_keys(&precheck.forced_refresh);
    let mut marked = match mark_empty_if_not_found {
        Some(keys) => copy_keys(keys),
        None => Vec::new(),
    };
    let ghost kept_before = kept@;
    let ghost refresh_before = refresh@;
    let ghost marked_before = marked@;
    let mut i: usize = 0;
    proof {
        assert(kept@ =~= kept_before + picked(checked@.take(0), pick_kept()));
        assert(refresh@ =~= refresh_before + picked(checked@.take(0), pick_refreshed()));
        assert(marked@ =~= marked_before + picked(checked@.take(0), pick_emptied()));
    }
    while i < checked.len()
        invariant
            i <= checked.len(),
            kept@ == kept_before + picked(checked@.take(i as int), pick_kept()),
            refresh@ == refresh_before + picked(checked@.take(i as int), pick_refreshed()),
            marked@ == marked_before + picked(checked@.take(i as int), pick_emptied()),
        decreases checked.len() - i,
    {
        proof {
            lemma_picked_step(checked@, i as int, pick_kept());
            lemma_picked_step(checked@, i as int, pick_refreshed());
            lemma_picked_step(checked@, i as int, pick_emptied());
        }
        let (pubkey, decision) = checked[i];
        match decision {
            Some(RefreshDecision::Yes) => refresh.push(pubkey),
            Some(RefreshDecision::YesAndMarkEmptyIfNotFound) => {
                refresh.push(pubkey);
                marked.push(pubkey);
            },
            Some(RefreshDecision::No) => kept.push(pubkey),
            None => kept.push(pubkey),
        }
        i = i + 1;
        proof {
            assert(kept@ =~= kept_before + picked(checked@.take(i as int), pick_kept()));
            assert(refresh@ =~= refresh_before + picked(checked@.take(i as int), pick_refreshed()));
            assert(marked@ =~= marked_before + picked(checked@.take(i as int), pick_emptied()));
        }
    }
    assert(checked@.take(checked@.len() as int) =~= checked@);
    let ghost pick = pick_fetched(kept@, refresh@, loads@);
    let mut fetch: Vec<Pubkey> = Vec::new();
    let mut k: usize = 0;
    while k < pubkeys.len()
        invariant
            k <= pubkeys.len(),
            pick == pick_fetched(kept@, refresh@, loads@),
            fetch@ == picked(pubkeys@.take(k as int), pick),
        decreases pubkeys.len() - k,
    {
        proof {
            lemma_picked_step(pubkeys@, k as int, pick);
        }
        let pubkey = pubkeys[k];
        if !contains_key(&kept, &pubkey) && (contains_key(&refresh, &pubkey) || contains_key(
            loads,
            &pubkey,
        )) {
            fetch.push(pubkey);
        }
        k = k + 1;
    }
    assert(pubkeys@.take(pubkeys@.len() as int) =~= pubkeys@);
    let marked = distinct(&marked);
    let mark_empty = if marked.len() == 0 {
        None
    } else {
        Some(marked)
    };
    FetchPlan { fetch, mark_empty }
}

/// An account that the bank has, that is not undelegating and that nobody forces a refresh of
/// is not fetched. An account that the bank does not have is fetched exactly by the caller who
/// loads it.
pub proof fn law_fetches_what_is_missing(
    account: PrecheckedAccount,
    accounts: Seq<PrecheckedAccount>,
    forced: Seq<Pubkey>,
    confirmed: Option<(Pubkey, u64)>,
    precheck: Precheck,
    checked: Seq<(Pubkey, Option<RefreshDecision>)>,
    loads: Seq<Pubkey>,
)
    requires
        precheck.present@ == picked(
            accounts,
            pick_of_class(PrecheckClass::Present, forced, confirmed),
        ),
        precheck.still_undelegating@ == picked(
            accounts,
            pick_of_class(PrecheckClass::StillUndelegating, forced, confirmed),
        ),
        precheck.forced_refresh@ == picked(
            accounts,
            pick_of_class(PrecheckClass::ForcedRefresh, forced, confirmed),
        ),
        accounts.contains(account),
        !forced.contains(account.pubkey),
        // The bank says one thing of each account, and the chain is only asked about those
        // that are undelegating.
        forall|i: int|
            0 <= i < accounts.len() && (#[trigger] accounts[i]).pubkey == account.pubkey
                ==> accounts[i].local == account.local,
        forall|i: int|
            0 <= i < checked.len() && (#[trigger] checked[i]).0 == account.pubkey ==> (
            account.local matches Some((_, mode)) && mode == AccountMode::Transient),
    ensures
        (account.local matches Some((_, mode)) && mode != AccountMode::Transient)
            ==> pick_fetched(
            kept_in_bank(precheck, checked),
            refreshed(precheck, checked),
            loads,
        )(account.pubkey) is None,
        account.local is None ==> (pick_fetched(
            kept_in_bank(precheck, checked),
            refreshed(precheck, checked),
            loads,
        )(account.pubkey) is Some <==> loads.contains(account.pubkey)),
{
    let kept = kept_in_bank(precheck, checked);
    let i = choose|i: int| 0 <= i < accounts.len() && accounts[i] == account;
    let present = pick_of_class(PrecheckClass::Present, forced, confirmed);
    let still = pick_of_class(PrecheckClass::StillUndelegating, forced, confirmed);
    let force = pick_of_class(PrecheckClass::ForcedRefresh, forced, confirmed);
    crate::lists::lemma_picked_contains(accounts, present, account.pubkey);
    crate::lists::lemma_picked_contains(accounts, still, account.pubkey);
    crate::lists::lemma_picked_contains(accounts, force, account.pubkey);
    crate::lists::lemma_picked_contains(checked, pick_kept(), account.pubkey);
    crate::lists::lemma_picked_contains(checked, pick_refreshed(), account.pubkey);
    crate::chainlink::fetch_cloner::cancel::lemma_concat_contains(
        precheck.present@ + precheck.still_undelegating@,
        picked(checked, pick_kept()),
        account.pubkey,
    );
    crate::chainlink::fetch_cloner::cancel::lemma_concat_contains(
        precheck.present@,
        precheck.still_undelegating@,
        account.pubkey,
    );
    crate::chainlink::fetch_cloner::cancel::lemma_concat_contains(
        precheck.forced_refresh@,
        picked(checked, pick_refreshed()),
        account.pubkey,
    );
    if account.local matches Some((_, mode)) && mode != AccountMode::Transient {
        assert(present(accounts[i]) == Some(account.pubkey));
    }
}

/// The mode that an account was last materialized in.
pub open spec fn materialized_mode(
    materialized: Seq<(Pubkey, AccountMode)>,
    pubkey: Pubkey,
) -> Option<AccountMode>
    decreases materialized.len(),
{
    if materialized.len() == 0 {
        None
    } else if materialized.last().0 == pubkey {
        Some(materialized.last().1)
    } else {
        materialized_mode(materialized.drop_last(), pubkey)
    }
}

/// The loads that are complete: each account that was materialized completes the first load of
/// it.
pub open spec fn completed_loads(
    loads: Seq<Pubkey>,
    materialized: Seq<(Pubkey, AccountMode)>,
) -> Seq<(Pubkey, AccountMode)>
    decreases loads.len(),
{
    if loads.len() == 0 {
        Seq::empty()
    } else {
        let front = completed_loads(loads.drop_last(), materialized);
        match materialized_mode(materialized, loads.last()) {
            Some(mode) => if loads.drop_last().contains(loads.last()) {
                front
            } else {
                front.push((loads.last(), mode))
            },
            None => front,
        }
    }
}

fn find_mode(materialized: &Vec<(Pubkey, AccountMode)>, pubkey: &Pubkey) -> (r: Option<
    AccountMode,
>)
    ensures
        r == materialized_mode(materialized@, *pubkey),
{
    let mut i: usize = materialized.len();
    assert(materialized@.take(materialized@.len() as int) =~= materialized@);
    while i > 0
        invariant
            i <= materialized.len(),
            materialized_mode(materialized@, *pubkey) == materialized_mode(
                materialized@.take(i as int),
                *pubkey,
            ),
        decreases i,
    {
        assert(materialized@.take(i as int).drop_last() =~= materialized@.take(i - 1));
        i = i - 1;
        if materialized[i].0 == *pubkey {
            return Some(materialized[i].1);
        }
    }
    None
}

/// The loads that are complete, with the modes that their accounts were materialized in.
pub fn complete_loads(loads: &Vec<Pubkey>, materialized: &Vec<(Pubkey, AccountMode)>) -> (r: Vec<
    (Pubkey, AccountMode),
>)
    ensures
        r@ == completed_loads(loads@, materialized@),
{
    let mut seen: Vec<Pubkey> = Vec::new();
    let mut completed: Vec<(Pubkey, AccountMode)> = Vec::new();
    let mut i: usize = 0;
    while i < loads.len()
        invariant
            i <= loads.len(),
            seen@ == loads@.take(i as int),
            completed@ == completed_loads(loads@.take(i as int), materialized@),
        decreases loads.len() - i,
    {
        let pubkey = loads[i];
        if let Some(mode) = find_mode(materialized, &pubkey) {
            if !contains_key(&seen, &pubkey) {
                completed.push((pubkey, mode));
            }
        }
        seen.push(pubkey);
        i = i + 1;
        assert(loads@.take(i as int).drop_last() =~= loads@.take(i - 1));
        assert(seen@ =~= loads@.take(i as int));
    }
    assert(loads@.take(loads@.len() as int) =~= loads@);
    completed
}

/// Whether `outcome` is what the loads that were waited for lead to: if all were completed,
/// success; if not, the first that was not is the error.
pub open spec fn waited_for(
    waited: Seq<(Pubkey, bool)>,
    outcome: Result<(), ChainlinkError>,
) -> bool {
    match outcome {
        Ok(_) => forall|i: int| 0 <= i < waited.len() ==> (#[trigger] waited[i]).1,
        Err(error) => exists|i: int|
            {
                &&& 0 <= i < waited.len()
                &&& !(#[trigger] waited[i]).1
                &&& error == ChainlinkError::AccountLoadFailed(waited[i].0)
                &&& forall|j: int| 0 <= j < i ==> (#[trigger] waited[j]).1
            },
    }
}

/// Whether all loads that were waited for were completed; if not, the first that was not is
/// the error.
pub fn check_waiters(waited: &Vec<(Pubkey, bool)>) -> (r: Result<(), ChainlinkError>)
    ensures
        waited_for(waited@, r),
{
    let mut i: usize = 0;
    while i < waited.len()
        invariant
            i <= waited.len(),
            forall|j: int| 0 <= j < i ==> (#[trigger] waited@[j]).1,
        decreases waited.len() - i,
    {
        if !waited[i].1 {
            assert(!waited@[i as int].1);
            return Err(ChainlinkError::AccountLoadFailed(waited[i].0));
        }
        i = i + 1;
    }
    Ok(())
}

} // verus!
