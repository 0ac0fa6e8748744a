//! Work that is shared by those who ask for the same account.
use magicblock_chainlink::account::{AccountMode, BankAccount};
use magicblock_chainlink::chainlink::errors::ChainlinkError;
use magicblock_chainlink::chainlink::fetch_cloner::pending::{
    clone_guard_dropped, clone_pending_request_error, complete_fetches, plan_fetches,
    AskedAccount, PendingClaim, PendingFailure, PendingTable,
};
use magicblock_chainlink::chainlink::fetch_cloner::pending_ops::{
    check_waiters, complete_loads, plan_refresh, precheck_account, precheck_accounts,
    PrecheckClass, PrecheckedAccount,
};
use magicblock_chainlink::chainlink::fetch_cloner::types::RefreshDecision;
use magicblock_chainlink::program_ids::DLP_PROGRAM_ID;
use magicblock_chainlink::pubkey::Pubkey;

fn key(n: u8) -> Pubkey {
    Pubkey::new([n; 32])
}

fn held(owner: Pubkey, delegated: bool) -> Option<BankAccount> {
    Some(BankAccount { owner, lamports: 1, slot: 5, delegated, undelegating: false })
}

fn asked(n: u8, in_bank: Option<BankAccount>, is_watching: bool, waiter: u64) -> AskedAccount {
    AskedAccount { pubkey: key(n), in_bank, is_watching, waiter }
}

#[test]
fn dismissed_guard_leaves_completion_to_owner() {
    let mut pending = PendingTable::new();
    pending.open(&key(1));
    assert!(clone_guard_dropped(&mut pending, &key(1), true).is_empty());
    assert!(pending.contains(&key(1)));
}

#[test]
fn drop_fails_waiters_and_releases_claim() {
    let mut pending = PendingTable::new();
    pending.open(&key(1));
    assert!(pending.join(&key(1), 7));
    assert_eq!(clone_guard_dropped(&mut pending, &key(1), false), vec![7]);
    assert!(!pending.contains(&key(1)));
}

#[test]
fn the_first_claimer_owns_the_work() {
    let mut pending = PendingTable::new();
    assert_eq!(
        pending.claim_or_join_pending(&key(1), 1, 10, 100, 50),
        PendingClaim::Created { generation: 1, deadline: 150 }
    );
    assert_eq!(
        pending.claim_or_join_pending(&key(1), 2, 11, 120, 50),
        PendingClaim::Joined { generation: 1, deadline: 150 }
    );
    assert_eq!(
        pending.claim_or_join_pending(&key(1), 2, 11, 120, 50),
        PendingClaim::Joined { generation: 1, deadline: 150 }
    );
    assert_eq!(pending.finish_pending(&key(1), 2), Vec::<u64>::new());
    assert!(pending.contains(&key(1)));
    assert_eq!(pending.finish_pending(&key(1), 1), vec![10, 11]);
    assert!(!pending.contains(&key(1)));
    assert_eq!(pending.finish_pending(&key(1), 1), Vec::<u64>::new());
}

#[test]
fn those_who_went_away_are_not_told() {
    let mut pending = PendingTable::new();
    pending.claim_or_join_pending(&key(1), 1, 10, 0, 5);
    pending.claim_or_join_pending(&key(1), 2, 11, 0, 5);
    pending.abandon(&key(1), 9, 11);
    pending.abandon(&key(1), 1, 10);
    assert_eq!(pending.guard_dropped(&key(1), 1, true), Vec::<u64>::new());
    assert_eq!(pending.guard_dropped(&key(1), 1, false), vec![11]);
    assert!(!pending.join(&key(1), 12));
}

#[test]
fn accounts_are_fetched_once_at_a_time() {
    let dlp = Pubkey::new(DLP_PROGRAM_ID);
    let mut pending = PendingTable::new();
    let first = plan_fetches(
        &mut pending,
        &vec![
            asked(1, None, false, 10),
            asked(2, held(key(9), false), true, 11),
            asked(3, held(key(9), false), false, 12),
            asked(4, held(key(9), true), false, 13),
            asked(5, held(dlp, false), false, 14),
            asked(6, None, false, 15),
        ],
        &vec![key(6)],
    );
    assert_eq!(first.fetch_new, vec![key(1), key(3)]);
    assert!(first.await_pending.is_empty());

    let second = plan_fetches(
        &mut pending,
        &vec![asked(1, None, false, 20), asked(7, None, false, 21)],
        &vec![],
    );
    assert_eq!(second.fetch_new, vec![key(7)]);
    assert_eq!(second.await_pending, vec![(key(1), 20)]);

    assert_eq!(complete_fetches(&mut pending, &first.fetch_new), vec![20]);
    assert!(!pending.contains(&key(1)));
    assert!(pending.contains(&key(7)));
}

#[test]
fn failures_become_errors() {
    assert!(matches!(
        PendingFailure::OwnerFailed("x".into()).into_chainlink_error(key(1)),
        ChainlinkError::PendingRequestOwnerFailed(pubkey, text) if pubkey == key(1) && text == "x"
    ));
    assert!(matches!(
        PendingFailure::TimedOut.into_chainlink_error(key(1)),
        ChainlinkError::PendingRequestTimeout(pubkey) if pubkey == key(1)
    ));
    assert!(matches!(
        PendingFailure::Cancelled.into_chainlink_error(key(1)),
        ChainlinkError::PendingRequestCancelled(pubkey) if pubkey == key(1)
    ));
}

#[test]
fn errors_are_told_to_everybody_who_waits() {
    assert!(matches!(
        clone_pending_request_error(&ChainlinkError::PendingRequestTimeout(key(1))),
        ChainlinkError::PendingRequestTimeout(pubkey) if pubkey == key(1)
    ));
    assert!(matches!(
        clone_pending_request_error(&ChainlinkError::PendingRequestOwnerDropped(key(1))),
        ChainlinkError::PendingRequestOwnerDropped(pubkey) if pubkey == key(1)
    ));
    let gone = ChainlinkError::PendingRequestOwnerDisappeared(key(1), "gone".into());
    assert!(matches!(
        clone_pending_request_error(&gone),
        ChainlinkError::PendingRequestOwnerDisappeared(_, text) if text == "gone"
    ));
    let failed = ChainlinkError::PendingRequestOwnerFailed(key(1), "failed".into());
    assert!(matches!(
        clone_pending_request_error(&failed),
        ChainlinkError::PendingRequestOwnerFailed(_, text) if text == "failed"
    ));
}

fn prechecked(n: u8, local: Option<(u64, AccountMode)>) -> PrecheckedAccount {
    PrecheckedAccount { pubkey: key(n), local }
}

#[test]
fn forced_refreshes_spare_undelegating_accounts() {
    let undelegating = prechecked(1, Some((5, AccountMode::Transient)));
    let forced = vec![key(1)];
    assert_eq!(
        precheck_account(&undelegating, &forced, None),
        PrecheckClass::StillUndelegating
    );
    assert_eq!(
        precheck_account(&undelegating, &forced, Some((key(1), 5))),
        PrecheckClass::StillUndelegating
    );
    assert_eq!(
        precheck_account(&undelegating, &forced, Some((key(1), 6))),
        PrecheckClass::ForcedRefresh
    );
    assert_eq!(
        precheck_account(&undelegating, &vec![], None),
        PrecheckClass::CheckUndelegating
    );
}

#[test]
fn what_is_missing_or_changed_is_fetched() {
    let accounts = vec![
        prechecked(1, Some((5, AccountMode::ReadOnly))),
        prechecked(2, None),
        prechecked(3, Some((5, AccountMode::Transient))),
        prechecked(4, Some((6, AccountMode::Transient))),
        prechecked(5, Some((6, AccountMode::Transient))),
        prechecked(6, Some((7, AccountMode::ReadOnly))),
        prechecked(7, None),
    ];
    let precheck = precheck_accounts(&accounts, &vec![key(6)], None);
    assert_eq!(precheck.present, vec![key(1)]);
    assert_eq!(precheck.absent, vec![key(2), key(7)]);
    assert_eq!(precheck.forced_refresh, vec![key(6)]);
    assert_eq!(precheck.check_undelegating, vec![(key(3), 5), (key(4), 6), (key(5), 6)]);
    let checked = vec![
        (key(3), Some(RefreshDecision::Yes)),
        (key(4), Some(RefreshDecision::YesAndMarkEmptyIfNotFound)),
        (key(5), None),
    ];
    let pubkeys: Vec<Pubkey> = (1..8).map(key).collect();
    let plan = plan_refresh(&pubkeys, &precheck, &checked, &vec![key(2)], Some(&vec![key(2)]));
    assert_eq!(plan.fetch, vec![key(2), key(3), key(4), key(6)]);
    assert_eq!(plan.mark_empty, Some(vec![key(2), key(4)]));
    let plan = plan_refresh(&vec![key(1)], &precheck, &vec![], &vec![], None);
    assert!(plan.fetch.is_empty());
    assert_eq!(plan.mark_empty, None);
}

#[test]
fn loads_are_complete_once_their_account_is_there() {
    let completed = complete_loads(
        &vec![key(1), key(2), key(1)],
        &vec![(key(1), AccountMode::ReadOnly), (key(1), AccountMode::Delegated)],
    );
    assert_eq!(completed, vec![(key(1), AccountMode::Delegated)]);
    assert!(check_waiters(&vec![(key(1), true)]).is_ok());
    assert!(matches!(
        check_waiters(&vec![(key(1), true), (key(2), false), (key(3), false)]),
        Err(ChainlinkError::AccountLoadFailed(pubkey)) if pubkey == key(2)
    ));
}
