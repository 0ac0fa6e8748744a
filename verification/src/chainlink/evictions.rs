//! How accounts leave the rollup that nobody watches or that its cache let go.
use vstd::prelude::*;
use crate::pubkey::Pubkey;

verus! {

/// Why an account is to leave.
#[derive(Clone, Copy, Debug, PartialEq, Eq, Structural)]
pub enum EvictionCause {
    /// Its subscription can no longer be used.
    Unwatched,
    /// The cache let it go.
    Displaced,
}

/// How far an eviction got.
#[derive(Clone, Copy, Debug)]
pub enum EvictionState {
    /// Subscriptions to the account wait, and it is known whether it is watched.
    Locked { watching: bool },
    /// Whether the account could be claimed; it cannot if it is gone or decides for itself.
    Claimed(bool),
    /// Whether the account could be unsubscribed from.
    Unsubscribed(bool),
    /// Whether the account could be removed, and the delegated account that its balance was
    /// shown from, if it showed one.
    Removed { done: bool, shown_from: Option<Pubkey> },
}

/// What is to be done next.
#[derive(Clone, Copy, Debug)]
pub enum EvictionStep {
    Claim,
    Unsubscribe,
    Remove,
    /// Let go of the account that the balance was shown from.
    ReleaseProjection(Pubkey),
    Stop,
}

/// What is to be done next. An account that is watched again stays, unless the cache let it go.
pub open spec fn step_after(cause: EvictionCause, state: EvictionState) -> EvictionStep {
    match state {
        EvictionState::Locked { watching } => if cause == EvictionCause::Unwatched && watching {
            EvictionStep::Stop
        } else {
            EvictionStep::Claim
        },
        EvictionState::Claimed(true) => EvictionStep::Unsubscribe,
        EvictionState::Unsubscribed(true) => EvictionStep::Remove,
        EvictionState::Removed { done: true, shown_from: Some(pubkey) } => if cause
            == EvictionCause::Displaced {
            EvictionStep::ReleaseProjection(pubkey)
        } else {
            EvictionStep::Stop
        },
        _ => EvictionStep::Stop,
    }
}

/// What is to be done next.
pub fn next_eviction_step(cause: EvictionCause, state: EvictionState) -> (r: EvictionStep)
    ensures
        r == step_after(cause, state),
{
    match state {
        EvictionState::Locked { watching } => if cause == EvictionCause::Unwatched && watching {
            EvictionStep::Stop
        } else {
            EvictionStep::Claim
        },
        EvictionState::Claimed(claimed) => if claimed {
            EvictionStep::Unsubscribe
        } else {
            EvictionStep::Stop
        },
        EvictionState::Unsubscribed(done) => if done {
            EvictionStep::Remove
        } else {
            EvictionStep::Stop
        },
        EvictionState::Removed { done, shown_from } => match shown_from {
            Some(pubkey) => if done && cause == EvictionCause::Displaced {
                EvictionStep::ReleaseProjection(pubkey)
            } else {
                EvictionStep::Stop
            },
            None => EvictionStep::Stop,
        },
    }
}

/// No account is removed that was not claimed and unsubscribed from, and an account that is
/// watched again is not removed for want of a subscription.
pub proof fn law_evictions_release_what_they_remove(cause: EvictionCause, state: EvictionState)
    ensures
        step_after(cause, state) is Unsubscribe ==> state == EvictionState::Claimed(true),
        step_after(cause, state) is Remove ==> state == EvictionState::Unsubscribed(true),
        step_after(cause, state) is ReleaseProjection ==> state matches EvictionState::Removed {
            done: true,
            ..
        },
        cause == EvictionCause::Unwatched && state == (EvictionState::Locked { watching: true })
            ==> step_after(cause, state) is Stop,
{
}

} // verus!
