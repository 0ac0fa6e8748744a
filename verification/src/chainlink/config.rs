//! How the chain link is set up.
use vstd::prelude::*;

verus! {

/// How the chain link is set up, `P` being how accounts are provided.
#[derive(Clone, Debug, Default)]
pub struct ChainlinkConfig<P> {
    pub remote_account_provider: P,
    /// Whether confined accounts are removed when the bank is reset.
    pub remove_confined_accounts: bool,
}

impl<P> ChainlinkConfig<P> {
    /// A set-up that keeps confined accounts.
    pub fn new(remote_account_provider: P) -> (r: ChainlinkConfig<P>)
        ensures
            r.remote_account_provider == remote_account_provider,
            !r.remove_confined_accounts,
    {
        ChainlinkConfig { remote_account_provider, remove_confined_accounts: false }
    }
}

} // verus!
