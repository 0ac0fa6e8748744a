//! Small rules that the steps of a fetch share.
use vstd::prelude::*;
use crate::account::{Account, AccountMode};
use crate::bytes::starts_with_discriminator;
use crate::chainlink::record_mirror::ObservedUndelegationRequest;
use crate::cloner::{AccountCloneRequest, Instruction};
use crate::delegation_record::{
    is_undelegation_request, read_undelegation_request, DELEGATION_RECORD_DISCRIMINATOR,
    UNDELEGATION_REQUEST_DISCRIMINATOR, UNDELEGATION_REQUEST_SIZE,
};
use crate::lists::{lemma_picked_step, picked};
use crate::pda::{delegation_record_address, delegation_record_pda};
use crate::program_ids::{
    ASSOCIATED_TOKEN_PROGRAM_ID, MAGIC_PROGRAM_ID, SYSTEM_PROGRAM_ID, TOKEN_2022_PROGRAM_ID,
    TOKEN_PROGRAM_ID,
};
use crate::pubkey::{address_at, contains_key, zero_pubkey, Pubkey};

verus! {

/// How many token-holding accounts are remembered as missing on chain.
pub const KNOWN_EMPTY_EATAS_CAPACITY: usize = 100_000;

/// How many programs are remembered as verified.
pub const PROGRAM_VERIFY_CACHE_CAPACITY: usize = 64;

/// How many accounts with programs' code are watched.
pub const PROGRAMDATA_WATCH_CAPACITY: usize = 512;

/// How many updates that look internal wait for another look.
pub const PENDING_COLLISION_RECHECKS_CAPACITY: usize = 16_384;

/// How many of them are settled at once when no more can wait.
pub const COLLISION_OVERFLOW_RECONCILIATION_LIMIT: usize = 64;

/// The seconds between two counts of the records that name this validator.
pub const AUTHORITY_RECORD_SWEEP_INTERVAL_SECS: u64 = 300;

/// The seconds between two tries to fill a gap in the stream.
pub const REPLAY_RECOVERY_RETRY_DELAY_SECS: u64 = 30;

/// The mode of an account that the rollup does not run: one without lamports only stands for
/// an account.
pub open spec fn immutable_mode(lamports: u64) -> AccountMode {
    if lamports == 0 {
        AccountMode::Placeholder
    } else {
        AccountMode::ReadOnly
    }
}

/// The mode of an account that the rollup does not run.
pub fn immutable_account_mode(lamports: u64) -> (r: AccountMode)
    ensures
        r == immutable_mode(lamports),
{
    if lamports == 0 {
        AccountMode::Placeholder
    } else {
        AccountMode::ReadOnly
    }
}

/// Bytes that an account's data have to hold at a place.
#[derive(Debug)]
pub struct BytesFilter {
    pub offset: usize,
    pub bytes: Vec<u8>,
}

/// Which accounts of a program are asked for.
#[derive(Debug)]
pub struct ProgramAccountsQuery {
    /// How long their data are, if that matters.
    pub data_size: Option<u64>,
    pub filters: Vec<BytesFilter>,
    /// Whether their data are asked for too.
    pub with_data: bool,
    pub min_context_slot: Option<u64>,
}

impl BytesFilter {
    /// Whether data hold the bytes at the place.
    pub open spec fn accepts(&self, data: Seq<u8>) -> bool {
        &&& self.offset + self.bytes@.len() <= data.len()
        &&& data.subrange(self.offset as int, self.offset + self.bytes@.len()) == self.bytes@
    }
}

impl ProgramAccountsQuery {
    /// Whether the query asks for an account with these data.
    pub open spec fn accepts(&self, data: Seq<u8>) -> bool {
        &&& self.data_size matches Some(size) ==> data.len() == size
        &&& forall|i: int| 0 <= i < self.filters@.len() ==> (#[trigger] self.filters@[i]).accepts(data)
    }
}

/// Accepts the data that begin with the eight bytes of a discriminator.
pub fn discriminator_filter(discriminator: u8) -> (r: BytesFilter)
    ensures
        r.offset == 0,
        r.bytes@ == seq![discriminator, 0u8, 0u8, 0u8, 0u8, 0u8, 0u8, 0u8],
        forall|data: Seq<u8>|
            #![trigger r.accepts(data)]
            r.accepts(data) <==> starts_with_discriminator(data, discriminator),
{
    let mut bytes: Vec<u8> = Vec::new();
    bytes.push(discriminator);
    while bytes.len() < 8
        invariant
            1 <= bytes@.len() <= 8,
            bytes@[0] == discriminator,
            forall|i: int| 1 <= i < bytes@.len() ==> bytes@[i] == 0,
        decreases 8 - bytes.len(),
    {
        bytes.push(0);
    }
    let r = BytesFilter { offset: 0, bytes };
    proof {
        assert(r.bytes@ =~= seq![discriminator, 0u8, 0u8, 0u8, 0u8, 0u8, 0u8, 0u8]);
        assert forall|data: Seq<u8>| #![trigger r.accepts(data)] r.accepts(data)
            <==> starts_with_discriminator(data, discriminator) by {
            if r.accepts(data) {
                let part = data.subrange(0, 8);
                assert forall|i: int| 0 <= i < 8 implies data[i] == part[i] by {}
            }
            if starts_with_discriminator(data, discriminator) {
                assert(data.subrange(0, 8) =~= r.bytes@);
            }
        }
    }
    r
}

/// Asks for the delegation records that name `authority`, without their data: exactly the
/// accounts that begin as a record does and go on with this authority.
pub fn authority_record_config(authority: &Pubkey, min_context_slot: Option<u64>) -> (r:
    ProgramAccountsQuery)
    ensures
        r.min_context_slot == min_context_slot,
        !r.with_data,
        forall|data: Seq<u8>|
            #![trigger r.accepts(data)]
            r.accepts(data) <==> starts_with_discriminator(data, DELEGATION_RECORD_DISCRIMINATOR)
                && data.len() >= 40 && address_at(data, 8) == authority@,
{
    let first = discriminator_filter(DELEGATION_RECORD_DISCRIMINATOR);
    let mut bytes: Vec<u8> = Vec::new();
    let mut i: usize = 0;
    while i < 32
        invariant
            i <= 32,
            bytes@ == authority@.take(i as int),
        decreases 32 - i,
    {
        bytes.push(authority.bytes[i]);
        i = i + 1;
        assert(bytes@ =~= authority@.take(i as int));
    }
    assert(bytes@ =~= authority@);
    let second = BytesFilter { offset: 8, bytes };
    let mut filters: Vec<BytesFilter> = Vec::new();
    filters.push(first);
    filters.push(second);
    let r = ProgramAccountsQuery { data_size: None, filters, with_data: false, min_context_slot };
    proof {
        assert forall|data: Seq<u8>| #![trigger r.accepts(data)] r.accepts(data)
            <==> starts_with_discriminator(data, DELEGATION_RECORD_DISCRIMINATOR) && data.len()
            >= 40 && address_at(data, 8) == authority@ by {
            if r.accepts(data) {
                assert(r.filters@[0].accepts(data));
                assert(r.filters@[1].accepts(data));
                assert(data.subrange(8, 40) =~= address_at(data, 8));
            }
            if data.len() >= 40 && address_at(data, 8) == authority@ {
                assert(data.subrange(8, 40) =~= address_at(data, 8));
            }
        }
    }
    r
}

/// What is asked for after the stream missed something.
#[derive(Debug)]
pub struct ReplayGapQueries {
    /// The records that name this validator.
    pub validator_records: ProgramAccountsQuery,
    /// The records that name nobody.
    pub confined_records: ProgramAccountsQuery,
    /// All accounts of the delegation program.
    pub accounts: ProgramAccountsQuery,
}

/// What is asked for after the stream missed something up to a slot. Together, the two queries
/// for records accept exactly the records of accounts that this validator may run.
pub fn replay_gap_queries(validator_pubkey: &Pubkey, min_context_slot: u64) -> (r: ReplayGapQueries)
    ensures
        r.validator_records.min_context_slot == Some(min_context_slot),
        r.confined_records.min_context_slot == Some(min_context_slot),
        r.accounts.min_context_slot == Some(min_context_slot),
        !r.validator_records.with_data && !r.confined_records.with_data && !r.accounts.with_data,
        forall|data: Seq<u8>|
            #![trigger starts_with_discriminator(data, DELEGATION_RECORD_DISCRIMINATOR)]
            r.validator_records.accepts(data) || r.confined_records.accepts(data) <==> {
                &&& starts_with_discriminator(data, DELEGATION_RECORD_DISCRIMINATOR)
                &&& data.len() >= 40
                &&& address_at(data, 8) == validator_pubkey@ || address_at(data, 8)
                    == zero_pubkey()
            },
        forall|data: Seq<u8>| #[trigger] r.accounts.accepts(data),
{
    let nobody = Pubkey::zero();
    let r = ReplayGapQueries {
        validator_records: authority_record_config(validator_pubkey, Some(min_context_slot)),
        confined_records: authority_record_config(&nobody, Some(min_context_slot)),
        accounts: ProgramAccountsQuery {
            data_size: None,
            filters: Vec::new(),
            with_data: false,
            min_context_slot: Some(min_context_slot),
        },
    };
    r
}

/// Asks for undelegation requests with their data.
pub fn undelegation_request_config() -> (r: ProgramAccountsQuery)
    ensures
        r.min_context_slot is None,
        r.with_data,
        forall|data: Seq<u8>|
            #![trigger r.accepts(data)]
            r.accepts(data) <==> data.len() == UNDELEGATION_REQUEST_SIZE
                && starts_with_discriminator(data, UNDELEGATION_REQUEST_DISCRIMINATOR),
{
    let mut filters: Vec<BytesFilter> = Vec::new();
    filters.push(discriminator_filter(UNDELEGATION_REQUEST_DISCRIMINATOR));
    let r = ProgramAccountsQuery {
        data_size: Some(UNDELEGATION_REQUEST_SIZE as u64),
        filters,
        with_data: true,
        min_context_slot: None,
    };
    proof {
        assert forall|data: Seq<u8>| #![trigger r.accepts(data)] r.accepts(data) <==> data.len()
            == UNDELEGATION_REQUEST_SIZE && starts_with_discriminator(
            data,
            UNDELEGATION_REQUEST_DISCRIMINATOR,
        ) by {
            if r.accepts(data) {
                assert(r.filters@[0].accepts(data));
            }
        }
    }
    r
}

/// Whether `request` is what an account with these data asks for.
pub open spec fn observes(
    account: (Pubkey, Vec<u8>),
    observed_slot: u64,
    request: ObservedUndelegationRequest,
) -> bool {
    &&& request.request_pda == account.0
    &&& request.delegated_account@ == address_at(account.1@, 8)
    &&& request.expires_at_slot == crate::bytes::le_value(account.1@, 40)
    &&& request.observed_slot == observed_slot
}

/// Picks the accounts that are undelegation requests.
pub open spec fn pick_requests() -> spec_fn((Pubkey, Vec<u8>)) -> Option<(Pubkey, Vec<u8>)> {
    |account: (Pubkey, Vec<u8>)|
        if is_undelegation_request(account.1@) {
            Some(account)
        } else {
            None
        }
}

/// The undelegation requests among accounts; those that are malformed are left out.
pub fn read_undelegation_requests(accounts: &Vec<(Pubkey, Vec<u8>)>, observed_slot: u64) -> (r: Vec<
    ObservedUndelegationRequest,
>)
    ensures
        r@.len() == picked(accounts@, pick_requests()).len(),
        forall|i: int|
            0 <= i < r@.len() ==> observes(
                picked(accounts@, pick_requests())[i],
                observed_slot,
                #[trigger] r@[i],
            ),
{
    let mut requests: Vec<ObservedUndelegationRequest> = Vec::new();
    let mut i: usize = 0;
    while i < accounts.len()
        invariant
            i <= accounts.len(),
            requests@.len() == picked(accounts@.take(i as int), pick_requests()).len(),
            forall|j: int|
                0 <= j < requests@.len() ==> observes(
                    picked(accounts@.take(i as int), pick_requests())[j],
                    observed_slot,
                    #[trigger] requests@[j],
                ),
        decreases accounts.len() - i,
    {
        proof {
            lemma_picked_step(accounts@, i as int, pick_requests());
        }
        if let Some(request) = read_undelegation_request(accounts[i].1.as_slice()) {
            requests.push(
                ObservedUndelegationRequest {
                    request_pda: accounts[i].0,
                    delegated_account: request.delegated_account,
                    expires_at_slot: request.expires_at_slot,
                    observed_slot,
                },
            );
        }
        i = i + 1;
    }
    assert(accounts@.take(accounts@.len() as int) =~= accounts@);
    requests
}

/// Picks the accounts whose delegation records are among `records`.
pub open spec fn pick_recorded_in(records: Seq<Pubkey>) -> spec_fn(Pubkey) -> Option<Pubkey> {
    |pubkey: Pubkey|
        if exists|i: int|
            0 <= i < records.len() && (#[trigger] records[i])@ == delegation_record_address(
                pubkey@,
            ) {
            Some(pubkey)
        } else {
            None
        }
}

/// The accounts of the delegation program whose records are among those that name this
/// validator or nobody: the stream may have missed their delegation.
pub fn replay_recovery_candidates(accounts: &Vec<Pubkey>, record_pdas: &Vec<Pubkey>) -> (r: Vec<
    Pubkey,
>)
    ensures
        r@ == picked(accounts@, pick_recorded_in(record_pdas@)),
{
    let mut candidates: Vec<Pubkey> = Vec::new();
    let mut i: usize = 0;
    while i < accounts.len()
        invariant
            i <= accounts.len(),
            candidates@ == picked(accounts@.take(i as int), pick_recorded_in(record_pdas@)),
        decreases accounts.len() - i,
    {
        proof {
            lemma_picked_step(accounts@, i as int, pick_recorded_in(record_pdas@));
        }
        let record = delegation_record_pda(&accounts[i]);
        let found = contains_key(record_pdas, &record);
        proof {
            if !found {
                assert forall|j: int| 0 <= j < record_pdas@.len() implies (
                #[trigger] record_pdas@[j])@ != record@ by {
                    if record_pdas@[j]@ == record@ {
                        crate::pubkey::lemma_pubkey_bytes_determine(record_pdas@[j], record);
                        assert(record_pdas@.contains(record));
                    }
                }
            } else {
                let j = choose|j: int| 0 <= j < record_pdas@.len() && record_pdas@[j] == record;
                assert(record_pdas@[j]@ == delegation_record_address(accounts@[i as int]@));
            }
        }
        if found {
            candidates.push(accounts[i]);
        }
        i = i + 1;
    }
    assert(accounts@.take(accounts@.len() as int) =~= accounts@);
    candidates
}

/// What an update of an account of the delegation program is worth.
#[derive(Clone, Copy, Debug, PartialEq, Eq, Structural)]
pub enum DlpProgramUpdateInterest {
    /// Nothing: the rollup runs the account, so its own state counts.
    DropLocalDelegatedAuthoritative,
    ProcessUndelegating,
    ProcessAtaProjection,
    ProcessDirectlyWatched,
    DiscoverDelegatedAccount,
}

/// Tells what an update of an account of the delegation program is worth. `raw_eata_interest`
/// says, for an account that holds a wallet's tokens, whether somebody here wants them shown in
/// a token account; `base_ata_interest` says so for a token account.
pub fn classify_dlp_program_update_interest(
    local: Option<AccountMode>,
    is_watching: bool,
    raw_eata_interest: Option<bool>,
    base_ata_interest: bool,
) -> (r: DlpProgramUpdateInterest)
    ensures
        r == if local == Some(AccountMode::Transient) {
            DlpProgramUpdateInterest::ProcessUndelegating
        } else if local == Some(AccountMode::Delegated) {
            DlpProgramUpdateInterest::DropLocalDelegatedAuthoritative
        } else if is_watching {
            DlpProgramUpdateInterest::ProcessDirectlyWatched
        } else {
            match raw_eata_interest {
                Some(true) => DlpProgramUpdateInterest::ProcessAtaProjection,
                Some(false) => DlpProgramUpdateInterest::DiscoverDelegatedAccount,
                None => if base_ata_interest {
                    DlpProgramUpdateInterest::ProcessAtaProjection
                } else {
                    DlpProgramUpdateInterest::DiscoverDelegatedAccount
                },
            }
        },
{
    if let Some(mode) = local {
        if mode == AccountMode::Transient {
            return DlpProgramUpdateInterest::ProcessUndelegating;
        }
        if mode == AccountMode::Delegated {
            return DlpProgramUpdateInterest::DropLocalDelegatedAuthoritative;
        }
    }
    if is_watching {
        return DlpProgramUpdateInterest::ProcessDirectlyWatched;
    }
    if let Some(interest) = raw_eata_interest {
        return if interest {
            DlpProgramUpdateInterest::ProcessAtaProjection
        } else {
            DlpProgramUpdateInterest::DiscoverDelegatedAccount
        };
    }
    if base_ata_interest {
        DlpProgramUpdateInterest::ProcessAtaProjection
    } else {
        DlpProgramUpdateInterest::DiscoverDelegatedAccount
    }
}

/// Whether a program may be cloned: without a restriction, or with an empty one, any may.
pub open spec fn program_allowed(allowed: Option<Vec<Pubkey>>, program_id: Pubkey) -> bool {
    match allowed {
        None => true,
        Some(programs) => programs@.len() == 0 || programs@.contains(program_id),
    }
}

/// Tests whether a program may be cloned.
pub fn is_program_allowed(allowed: &Option<Vec<Pubkey>>, program_id: &Pubkey) -> (r: bool)
    ensures
        r == program_allowed(*allowed, *program_id),
{
    match allowed {
        None => true,
        Some(programs) => programs.len() == 0 || contains_key(programs, program_id),
    }
}

/// Whether a program has too many accounts to subscribe to all of them.
pub fn program_subscription_is_too_broad(program_id: &Pubkey) -> (r: bool)
    ensures
        r == (program_id.bytes == TOKEN_PROGRAM_ID || program_id.bytes == TOKEN_2022_PROGRAM_ID
            || program_id.bytes == ASSOCIATED_TOKEN_PROGRAM_ID),
{
    program_id.is(&TOKEN_PROGRAM_ID) || program_id.is(&TOKEN_2022_PROGRAM_ID) || program_id.is(
        &ASSOCIATED_TOKEN_PROGRAM_ID,
    )
}

/// Whether an account only stands for one that the chain does not have.
pub fn is_empty_placeholder_account(account: &Account) -> (r: bool)
    ensures
        r == (account.mode == AccountMode::Placeholder),
{
    account.is(AccountMode::Placeholder)
}

/// Whether the chain had the account that is cloned.
#[derive(Clone, Copy, Debug, PartialEq, Eq, Structural)]
pub enum CloneRemoteResult {
    Found,
    NotFound,
    Failed,
}

/// Why an account is cloned.
#[derive(Clone, Copy, Debug, PartialEq, Eq, Structural)]
pub enum CloneIntent {
    EmptyPlaceholder,
    DelegationRecord,
    ActionDependency,
    NormalAccount,
    Unknown,
}

/// Tells whether the chain had the account.
pub fn clone_remote_result_for_request(request: &AccountCloneRequest) -> (r: CloneRemoteResult)
    ensures
        r == if request.account.mode == AccountMode::Placeholder {
            CloneRemoteResult::NotFound
        } else {
            CloneRemoteResult::Found
        },
{
    if is_empty_placeholder_account(&request.account) {
        CloneRemoteResult::NotFound
    } else {
        CloneRemoteResult::Found
    }
}

/// Tells why the account is cloned.
pub fn clone_intent_for_request(request: &AccountCloneRequest) -> (r: CloneIntent)
    ensures
        r == if request.account.mode == AccountMode::Placeholder {
            CloneIntent::EmptyPlaceholder
        } else if request.account.mode == AccountMode::Delegated {
            CloneIntent::DelegationRecord
        } else if request.post_delegation_mode is ExecuteActions {
            CloneIntent::ActionDependency
        } else {
            CloneIntent::NormalAccount
        },
{
    if is_empty_placeholder_account(&request.account) {
        CloneIntent::EmptyPlaceholder
    } else if request.account.is(AccountMode::Delegated) {
        CloneIntent::DelegationRecord
    } else if request.post_delegation_mode.has_actions() {
        CloneIntent::ActionDependency
    } else {
        CloneIntent::NormalAccount
    }
}

/// Whether an account that actions need has to be fetched before they run. One that is absent
/// is fetched unless it is written to: then the actions may create it. One that is here is
/// fetched if it is written to, older than what the actions were read with, and not run here.
pub fn action_dependency_needs_fetch(
    local: Option<(u64, AccountMode)>,
    view_slot: u64,
    writable: bool,
) -> (r: bool)
    ensures
        r == match local {
            None => !writable,
            Some((slot, mode)) => writable && slot < view_slot && mode != AccountMode::Delegated,
        },
{
    match local {
        None => !writable,
        Some((slot, mode)) => writable && slot < view_slot && mode != AccountMode::Delegated,
    }
}

/// Whose actions are checked for risk.
#[derive(Clone, Copy, Debug, PartialEq, Eq, Structural)]
pub enum AmlCheckStrategy {
    /// Everybody's.
    AllSigners,
    /// Those that touch a program that moves value.
    RelevantPrograms,
}

impl Default for AmlCheckStrategy {
    fn default() -> (r: AmlCheckStrategy)
        ensures
            r == AmlCheckStrategy::AllSigners,
    {
        AmlCheckStrategy::AllSigners
    }
}

/// The programs of the rollup that are deployed next to it.
#[derive(Clone, Copy, Debug)]
pub struct RollupPrograms {
    /// The program whose accounts hold tokens for the rollup.
    pub eata: Pubkey,
    /// The system program of the rollup.
    pub ephemeral_system: Pubkey,
}

/// Whether a program moves value.
pub open spec fn risk_relevant(program: Pubkey, rollup: RollupPrograms) -> bool {
    ||| program.bytes == TOKEN_PROGRAM_ID
    ||| program.bytes == TOKEN_2022_PROGRAM_ID
    ||| program == rollup.eata
    ||| program.bytes == MAGIC_PROGRAM_ID
    ||| program.bytes == SYSTEM_PROGRAM_ID
    ||| program == rollup.ephemeral_system
}

/// Tests whether a program moves value.
pub fn is_risk_relevant(program: &Pubkey, rollup: &RollupPrograms) -> (r: bool)
    ensures
        r == risk_relevant(*program, *rollup),
{
    program.is(&TOKEN_PROGRAM_ID) || program.is(&TOKEN_2022_PROGRAM_ID) || *program == rollup.eata
        || program.is(&MAGIC_PROGRAM_ID) || program.is(&SYSTEM_PROGRAM_ID) || *program
        == rollup.ephemeral_system
}

/// Whether an instruction runs or names a program that moves value.
pub open spec fn touches_risk(instruction: Instruction, rollup: RollupPrograms) -> bool {
    risk_relevant(instruction.program_id, rollup) || exists|i: int|
        0 <= i < instruction.accounts@.len() && risk_relevant(
            (#[trigger] instruction.accounts@[i]).pubkey,
            rollup,
        )
}

fn instruction_touches_risk(instruction: &Instruction, rollup: &RollupPrograms) -> (r: bool)
    ensures
        r == touches_risk(*instruction, *rollup),
{
    if is_risk_relevant(&instruction.program_id, rollup) {
        return true;
    }
    let mut i: usize = 0;
    while i < instruction.accounts.len()
        invariant
            i <= instruction.accounts.len(),
            !risk_relevant(instruction.program_id, *rollup),
            forall|j: int|
                0 <= j < i ==> !risk_relevant((#[trigger] instruction.accounts@[j]).pubkey, *rollup),
        decreases instruction.accounts.len() - i,
    {
        if is_risk_relevant(&instruction.accounts[i].pubkey, rollup) {
            return true;
        }
        i = i + 1;
    }
    false
}

/// Whether one of the instructions runs or names a program that moves value.
pub open spec fn any_touches_risk(actions: Seq<Instruction>, rollup: RollupPrograms) -> bool {
    exists|i: int| 0 <= i < actions.len() && touches_risk(#[trigger] actions[i], rollup)
}

/// Tests whether actions have to be checked for risk before they run.
pub fn delegation_actions_require_risk_check(
    strategy: AmlCheckStrategy,
    actions: &Vec<Instruction>,
    rollup: &RollupPrograms,
) -> (r: bool)
    ensures
        r == (strategy == AmlCheckStrategy::AllSigners || any_touches_risk(actions@, *rollup)),
{
    if strategy == AmlCheckStrategy::AllSigners {
        return true;
    }
    let mut i: usize = 0;
    while i < actions.len()
        invariant
            i <= actions.len(),
            forall|j: int| 0 <= j < i ==> !touches_risk(#[trigger] actions@[j], *rollup),
        decreases actions.len() - i,
    {
        if instruction_touches_risk(&actions[i], rollup) {
            return true;
        }
        i = i + 1;
    }
    false
}

} // verus!
