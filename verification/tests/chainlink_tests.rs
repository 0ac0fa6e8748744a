//! What the chain link says about accounts.
use magicblock_chainlink::account::{
    effective_slot, min_context_slot, Account, AccountMode, RemoteAccount, ResolvedAccount,
};
use magicblock_chainlink::chainlink::config::ChainlinkConfig;
use magicblock_chainlink::chainlink::errors::{join_errors, ChainlinkError};
use magicblock_chainlink::cloner::errors::{ClonerError, ErrorText};
use magicblock_chainlink::chainlink::evictions::{
    next_eviction_step, EvictionCause, EvictionState, EvictionStep,
};
use magicblock_chainlink::chainlink::{
    account_delegation_sessions, account_delegation_statuses, accounts_delegated_on_base_and_er,
    ensure_accounts, AccountDelegationSession, AccountDelegationStatus, AccountStatusOnEr,
};
use magicblock_chainlink::program_ids::DLP_PROGRAM_ID;
use magicblock_chainlink::pubkey::Pubkey;

fn key(n: u8) -> Pubkey {
    Pubkey::new([n; 32])
}

fn remote(owner: Pubkey) -> RemoteAccount {
    RemoteAccount::Found(ResolvedAccount::Fresh(Account::new(1, owner)))
}

#[test]
fn statuses_have_names_and_reasons() {
    assert_eq!(AccountStatusOnEr::default().as_str(), "missing");
    assert_eq!(AccountStatusOnEr::Delegated.as_str(), "delegated");
    assert_eq!(AccountStatusOnEr::NotDelegated.as_str(), "not_delegated");
    let status = |delegated_on_base, account_on_er| AccountDelegationStatus {
        delegated_on_base,
        account_on_er,
    };
    assert_eq!(status(true, AccountStatusOnEr::Delegated).not_ready_reason(), None);
    assert!(status(true, AccountStatusOnEr::Delegated).delegated_on_base_and_er());
    assert_eq!(
        status(false, AccountStatusOnEr::Delegated).not_ready_reason(),
        Some("not_delegated_on_base")
    );
    assert_eq!(
        status(true, AccountStatusOnEr::Missing).not_ready_reason(),
        Some("delegated_on_base_missing_on_er")
    );
    assert_eq!(
        status(true, AccountStatusOnEr::NotDelegated).not_ready_reason(),
        Some("delegated_on_base_not_delegated_on_er")
    );
}

#[test]
fn absent_and_undelegating_accounts_are_ensured() {
    let asked = vec![
        (key(1), None),
        (key(2), Some(AccountMode::ReadOnly)),
        (key(3), Some(AccountMode::Transient)),
        (key(4), Some(AccountMode::Delegated)),
        (key(1), None),
    ];
    assert_eq!(ensure_accounts(&asked), vec![key(1), key(3), key(1)]);
}

#[test]
fn sessions_protect_what_the_rollup_runs() {
    let sessions = account_delegation_sessions(&vec![
        None,
        Some((AccountMode::Delegated, 5)),
        Some((AccountMode::Transient, 6)),
        Some((AccountMode::ReadOnly, 7)),
    ]);
    assert_eq!(
        sessions,
        vec![
            None,
            Some(AccountDelegationSession { locally_protected: true, remote_slot: 5 }),
            Some(AccountDelegationSession { locally_protected: true, remote_slot: 6 }),
            Some(AccountDelegationSession { locally_protected: false, remote_slot: 7 }),
        ]
    );
}

#[test]
fn statuses_compare_both_sides() {
    let dlp = Pubkey::new(DLP_PROGRAM_ID);
    let locals = vec![
        Some((AccountMode::Delegated, key(9))),
        Some((AccountMode::ReadOnly, dlp)),
        Some((AccountMode::ReadOnly, key(9))),
        None,
    ];
    let remotes =
        Some(vec![remote(dlp), remote(dlp), remote(key(9)), RemoteAccount::NotFound(3)]);
    let statuses = account_delegation_statuses(&locals, &remotes).unwrap();
    let status = |delegated_on_base, account_on_er| AccountDelegationStatus {
        delegated_on_base,
        account_on_er,
    };
    assert_eq!(
        statuses,
        vec![
            status(true, AccountStatusOnEr::Delegated),
            status(true, AccountStatusOnEr::Delegated),
            status(false, AccountStatusOnEr::NotDelegated),
            status(false, AccountStatusOnEr::Missing),
        ]
    );
    assert_eq!(
        accounts_delegated_on_base_and_er(&statuses),
        vec![true, true, false, false]
    );
}

#[test]
fn without_a_chain_nothing_is_delegated() {
    let statuses =
        account_delegation_statuses(&vec![Some((AccountMode::Delegated, key(1)))], &None).unwrap();
    assert_eq!(statuses, vec![AccountDelegationStatus::default()]);
}

#[test]
fn the_chain_has_to_answer_for_every_account() {
    let error = account_delegation_statuses(&vec![None, None], &Some(vec![])).unwrap_err();
    assert!(matches!(
        error,
        ChainlinkError::UnexpectedAccountCount(text)
            if text == "expected 2 remote accounts, got 0"
    ));
}

#[test]
fn confined_accounts_are_kept_unless_asked_for() {
    let config = ChainlinkConfig::new(3u8);
    assert_eq!(config.remote_account_provider, 3);
    assert!(!config.remove_confined_accounts);
}

#[test]
fn slots_are_read_no_earlier_than_asked_for() {
    assert_eq!(effective_slot(None, 5), 5);
    assert_eq!(effective_slot(Some(7), 5), 7);
    assert_eq!(effective_slot(Some(3), 5), 5);
    assert_eq!(min_context_slot(None, 5), None);
    assert_eq!(min_context_slot(Some(3), 5), Some(5));
    assert_eq!(min_context_slot(Some(8), 5), Some(8));
}

#[test]
fn evictions_let_go_before_they_remove() {
    let step = next_eviction_step;
    let unwatched = EvictionCause::Unwatched;
    let displaced = EvictionCause::Displaced;
    assert!(matches!(
        step(unwatched, EvictionState::Locked { watching: true }),
        EvictionStep::Stop
    ));
    assert!(matches!(
        step(displaced, EvictionState::Locked { watching: true }),
        EvictionStep::Claim
    ));
    assert!(matches!(
        step(unwatched, EvictionState::Locked { watching: false }),
        EvictionStep::Claim
    ));
    assert!(matches!(step(unwatched, EvictionState::Claimed(false)), EvictionStep::Stop));
    assert!(matches!(step(unwatched, EvictionState::Claimed(true)), EvictionStep::Unsubscribe));
    assert!(matches!(step(displaced, EvictionState::Unsubscribed(true)), EvictionStep::Remove));
    assert!(matches!(step(displaced, EvictionState::Unsubscribed(false)), EvictionStep::Stop));
    let removed = EvictionState::Removed { done: true, shown_from: Some(key(4)) };
    assert!(matches!(
        step(displaced, removed),
        EvictionStep::ReleaseProjection(pubkey) if pubkey == key(4)
    ));
    assert!(matches!(step(unwatched, removed), EvictionStep::Stop));
}

#[test]
fn errors_say_what_happened() {
    assert_eq!(
        ChainlinkError::EnsureAccountsTimeout(30).message(),
        "Timed out ensuring accounts after 30 seconds"
    );
    let cloner = || {
        ChainlinkError::ClonerError(ClonerError::CommittorServiceError(ErrorText {
            display: "down".to_string(),
            debug: "\"down\"".to_string(),
        }))
    };
    assert_eq!(cloner().message(), "Cloner error: CommittorServiceError down");
    assert_eq!(
        join_errors(&vec![
            ChainlinkError::DisabledForNonPrimaryMode,
            cloner(),
            ChainlinkError::JoinError("cancelled".to_string()),
        ]),
        "Chainlink is disabled for non-primary mode, \
         Cloner error: CommittorServiceError down, JoinError: cancelled"
    );
    assert_eq!(join_errors(&vec![]), "");
}
