//! The steps that the processing of an update takes, one after the other.
use vstd::prelude::*;
use crate::account::SubscriptionSource;
use crate::chainlink::fetch_cloner::rules::DlpProgramUpdateInterest;
use crate::chainlink::fetch_cloner::updates::{
    check_watched, route_update, UpdateRoute, WatchCheck,
};
use crate::pubkey::Pubkey;

verus! {

/// How far the processing of an update got.
#[derive(Clone, Copy, Debug)]
pub enum UpdateState {
    /// The update came in. `interest` is what it is worth, if it is one of the delegation
    /// program that came from a subscription to the program.
    Received {
        source: SubscriptionSource,
        is_dlp_owned: bool,
        is_internal: bool,
        interest: Option<DlpProgramUpdateInterest>,
    },
    /// Whether the account was cloned as one that was not known here yet, or found to be
    /// delegated elsewhere.
    Discovered { handled: bool },
    /// Whether the account is watched, and whether the bank has it.
    Checked { source: SubscriptionSource, is_watching: bool, in_bank: bool },
    /// The program whose code the account keeps.
    Routed { program: Option<Pubkey> },
    /// Whether the account can be cloned.
    Resolved { found: bool },
}

/// What is to be done next.
#[derive(Clone, Copy, Debug)]
pub enum UpdateStep {
    /// Give up the direct subscription, and nothing else.
    ReleaseDirect,
    /// Find out what the account is, and nothing else.
    ResolveCollision,
    /// Clone the account if it is not known here yet.
    Discover,
    CheckWatched,
    /// Have the account that the bank still holds removed, and nothing else.
    RemoveStale,
    /// Look up whether the account keeps the code of a program.
    FindProgram,
    /// Load the program anew, and nothing else.
    ReloadProgram(Pubkey),
    Resolve,
    /// Apply the update, and nothing else.
    Apply,
    Stop,
}

/// What is to be done next.
pub open spec fn update_step_after(state: UpdateState) -> UpdateStep {
    match state {
        UpdateState::Received { source, is_dlp_owned, is_internal, interest } => if interest
            == Some(DlpProgramUpdateInterest::DropLocalDelegatedAuthoritative) {
            UpdateStep::ReleaseDirect
        } else if interest != Some(DlpProgramUpdateInterest::ProcessUndelegating) && interest
            != Some(DlpProgramUpdateInterest::ProcessAtaProjection) && is_dlp_owned && is_internal
            && source == SubscriptionSource::Program {
            UpdateStep::ResolveCollision
        } else {
            UpdateStep::Discover
        },
        UpdateState::Discovered { handled } => if handled {
            UpdateStep::Stop
        } else {
            UpdateStep::CheckWatched
        },
        UpdateState::Checked { source, is_watching, in_bank } => if source
            == SubscriptionSource::Program || is_watching {
            UpdateStep::FindProgram
        } else if in_bank {
            UpdateStep::RemoveStale
        } else {
            UpdateStep::Stop
        },
        UpdateState::Routed { program: Some(program) } => UpdateStep::ReloadProgram(program),
        UpdateState::Routed { program: None } => UpdateStep::Resolve,
        UpdateState::Resolved { found } => if found {
            UpdateStep::Apply
        } else {
            UpdateStep::Stop
        },
    }
}

/// What is to be done next.
pub fn next_update_step(state: UpdateState) -> (r: UpdateStep)
    ensures
        r == update_step_after(state),
{
    match state {
        UpdateState::Received { source, is_dlp_owned, is_internal, interest } => match route_update(
            source,
            is_dlp_owned,
            is_internal,
            interest,
        ) {
            UpdateRoute::DropAuthoritative => UpdateStep::ReleaseDirect,
            UpdateRoute::ResolveCollision => UpdateStep::ResolveCollision,
            UpdateRoute::Process => UpdateStep::Discover,
        },
        UpdateState::Discovered { handled } => if handled {
            UpdateStep::Stop
        } else {
            UpdateStep::CheckWatched
        },
        UpdateState::Checked { source, is_watching, in_bank } => match check_watched(
            source,
            is_watching,
            in_bank,
        ) {
            WatchCheck::Proceed => UpdateStep::FindProgram,
            WatchCheck::Drop => UpdateStep::Stop,
            WatchCheck::DropAndRemove => UpdateStep::RemoveStale,
        },
        UpdateState::Routed { program } => match program {
            Some(program) => UpdateStep::ReloadProgram(program),
            None => UpdateStep::Resolve,
        },
        UpdateState::Resolved { found } => if found {
            UpdateStep::Apply
        } else {
            UpdateStep::Stop
        },
    }
}

/// An update of an account that the rollup runs clones nothing. One that a subscription to a
/// program reported is never dropped for want of a subscription to the account. An account is
/// removed only if nobody watches it, and an update is applied only if its account was resolved.
pub proof fn law_updates_are_not_lost(state: UpdateState)
    ensures
        state matches UpdateState::Received {
            interest: Some(DlpProgramUpdateInterest::DropLocalDelegatedAuthoritative),
            ..
        } ==> update_step_after(state) is ReleaseDirect,
        state matches UpdateState::Checked { source, .. } && source == SubscriptionSource::Program
            ==> update_step_after(state) is FindProgram,
        update_step_after(state) is RemoveStale ==> {
            &&& state matches UpdateState::Checked { is_watching, in_bank, .. }
            &&& !is_watching
            &&& in_bank
        },
        update_step_after(state) is Apply ==> state == (UpdateState::Resolved { found: true }),
{
}

} // verus!
