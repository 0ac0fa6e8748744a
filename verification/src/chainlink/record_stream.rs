//! The stream of confirmed delegation records and delegation transactions.
//!
//! A source of raw events is turned into updates for the record mirror. A confirmed slot is a
//! barrier: everything up to it has been seen. An event behind the last barrier breaks that
//! promise, so the mirror is told first, and the source is replayed from there.
use vstd::prelude::*;
use crate::bytes::{has_discriminator, le_value, read_u64, starts_with_discriminator};
use crate::chainlink::fetch_cloner::rules::{discriminator_filter, BytesFilter};
use crate::delegation_record::{
    is_undelegation_request, read_undelegation_request, DELEGATION_RECORD_DISCRIMINATOR,
    UNDELEGATION_REQUEST_DISCRIMINATOR, UNDELEGATION_REQUEST_SIZE,
};
use crate::pda::{undelegation_request_address, undelegation_request_pda};
use crate::program_ids::DLP_PROGRAM_ID;
use crate::pubkey::{address_at, lemma_pubkey_bytes_determine, read_address, Pubkey};
use crate::text::{
    address_in_text, address_text, address_to_text, base58_bytes, decode_base58, parse_address,
};

verus! {

/// The instruction of the delegation program that gives an account back.
pub const UNDELEGATE_DISCRIMINATOR: u64 = 3;

/// The instruction of the delegation program that delegates an account.
pub const DELEGATE_DISCRIMINATOR: u64 = 0;

/// The instruction of the delegation program that delegates an account with actions.
pub const DELEGATE_WITH_ACTIONS_DISCRIMINATOR: u64 = 19;

/// Where the undelegate instruction names the delegation record.
pub const DELEGATION_RECORD_ACCOUNT_INDEX: usize = 6;

/// Where the delegate instructions name the delegated account.
pub const DELEGATE_DELEGATED_ACCOUNT_INDEX: usize = 1;

/// Where the delegate instructions name the delegation record.
pub const DELEGATE_RECORD_ACCOUNT_INDEX: usize = 4;

/// How many updates may wait for the mirror.
pub const MAX_PENDING_UPDATES: usize = 8192;

/// How many bytes of record data may wait for the mirror.
pub const MAX_PENDING_PAYLOAD_BYTES: usize = 67_108_864;

/// The most bytes that an account can hold.
pub const MAX_PERMITTED_DATA_LENGTH: usize = 10_485_760;

/// After this many failures the replay anchor is taken to be gone.
pub const MAX_REPLAY_RECONNECT_FAILURES: usize = 5;

/// The pause after the first failed reconnect.
pub const RECONNECT_BASE_DELAY_SECS: u64 = 1;

/// The longest pause between two reconnects.
pub const RECONNECT_MAX_DELAY_SECS: u64 = 60;

/// A replay starts this many slots behind the newest one that was observed.
pub const RESUME_SAFETY_MARGIN_SLOTS: u64 = 32;

/// What the stream tells the mirror.
#[derive(Debug)]
pub enum RecordStreamUpdate {
    /// A delegation record holds `data` since `slot`.
    Record { record: [u8; 32], data: Vec<u8>, slot: u64 },
    /// A delegation record was given up at `slot`.
    RecordUndelegated { record: [u8; 32], slot: u64 },
    /// An account was delegated at `slot`.
    DelegationObserved { delegated_account: [u8; 32], record: [u8; 32], slot: u64 },
    /// Somebody asked for an account to be given back.
    UndelegationRequested {
        request_pda: [u8; 32],
        delegated_account: [u8; 32],
        expires_at_slot: u64,
        slot: u64,
    },
    /// Everything up to this slot has been told.
    SlotAdvanced(u64),
    /// Something may have been missed.
    SyncInterrupted,
    /// Nothing more will come.
    SyncTerminated,
}

impl RecordStreamUpdate {
    /// The bytes of record data that an update carries.
    pub open spec fn payload(&self) -> nat {
        match self {
            RecordStreamUpdate::Record { data, .. } => data@.len(),
            _ => 0,
        }
    }

    /// The bytes of record data that this update carries.
    pub fn payload_bytes(&self) -> (r: usize)
        ensures
            r == self.payload(),
    {
        match self {
            RecordStreamUpdate::Record { data, .. } => data.len(),
            _ => 0,
        }
    }
}

/// How much of the payload budget an update takes.
#[derive(Clone, Copy, Debug, PartialEq, Eq, Structural)]
pub enum PayloadPermit {
    /// Nothing.
    Free,
    /// So many bytes.
    Bytes(u32),
    /// More than can be counted: the update is not sent.
    TooLarge,
}

/// The share of the payload budget that has to be had before `update` is sent.
pub fn payload_permit(update: &RecordStreamUpdate) -> (r: PayloadPermit)
    ensures
        r == if update.payload() == 0 {
            PayloadPermit::Free
        } else if update.payload() > u32::MAX {
            PayloadPermit::TooLarge
        } else {
            PayloadPermit::Bytes(update.payload() as u32)
        },
{
    let bytes = update.payload_bytes();
    if bytes == 0 {
        PayloadPermit::Free
    } else if bytes > 0xffff_ffff {
        PayloadPermit::TooLarge
    } else {
        PayloadPermit::Bytes(bytes as u32)
    }
}

/// The slots after `after_slot` up to and including `through_slot`.
#[derive(Clone, Copy, Debug, PartialEq, Eq, Structural)]
pub struct ReplayRecoveryRange {
    pub after_slot: u64,
    pub through_slot: u64,
}

impl ReplayRecoveryRange {
    /// Whether the range has `slot` in it.
    pub open spec fn covers(self, slot: int) -> bool {
        self.after_slot < slot <= self.through_slot
    }

    /// The smallest range with both in it.
    pub open spec fn merged_with(self, other: ReplayRecoveryRange) -> ReplayRecoveryRange {
        ReplayRecoveryRange {
            after_slot: if self.after_slot <= other.after_slot {
                self.after_slot
            } else {
                other.after_slot
            },
            through_slot: if self.through_slot >= other.through_slot {
                self.through_slot
            } else {
                other.through_slot
            },
        }
    }

    /// The smallest range with both in it.
    pub fn merged(self, other: ReplayRecoveryRange) -> (r: ReplayRecoveryRange)
        ensures
            r == self.merged_with(other),
    {
        ReplayRecoveryRange {
            after_slot: if self.after_slot <= other.after_slot {
                self.after_slot
            } else {
                other.after_slot
            },
            through_slot: if self.through_slot >= other.through_slot {
                self.through_slot
            } else {
                other.through_slot
            },
        }
    }
}

/// Merging loses no slot, and it does not matter in which order ranges are merged.
pub proof fn law_merged_ranges_lose_nothing(
    a: ReplayRecoveryRange,
    b: ReplayRecoveryRange,
    c: ReplayRecoveryRange,
)
    ensures
        forall|slot: int|
            a.covers(slot) || b.covers(slot) ==> #[trigger] a.merged_with(b).covers(slot),
        a.merged_with(b) == b.merged_with(a),
        a.merged_with(a) == a,
        a.merged_with(b).merged_with(c) == a.merged_with(b.merged_with(c)),
{
}

/// The range that still has to be asked for, if any.
#[derive(Debug)]
pub struct ReplayRecoveryState {
    pub pending: Option<ReplayRecoveryRange>,
}

impl Default for ReplayRecoveryState {
    fn default() -> (r: ReplayRecoveryState)
        ensures
            r.pending is None,
    {
        ReplayRecoveryState { pending: None }
    }
}

impl ReplayRecoveryState {
    /// Asks for `range` on top of what is pending. An empty range is no request. Returns
    /// whether there is something new to do.
    pub fn request(&mut self, range: ReplayRecoveryRange) -> (notify: bool)
        ensures
            notify == (range.after_slot < range.through_slot),
            final(self).pending == if !notify {
                old(self).pending
            } else {
                match old(self).pending {
                    Some(current) => Some(current.merged_with(range)),
                    None => Some(range),
                }
            },
    {
        if range.through_slot <= range.after_slot {
            return false;
        }
        let merged = match self.pending {
            Some(current) => current.merged(range),
            None => range,
        };
        self.pending = Some(merged);
        true
    }

    /// Hands out what is pending.
    pub fn take_pending(&mut self) -> (r: Option<ReplayRecoveryRange>)
        ensures
            r == old(self).pending,
            final(self).pending is None,
    {
        let r = self.pending;
        self.pending = None;
        r
    }
}

/// An instruction with its accounts given as places in the transaction's account list.
#[derive(Debug)]
pub struct CompiledInstruction {
    pub program_id_index: usize,
    pub accounts: Vec<u8>,
    pub data: Vec<u8>,
}

/// What the delegation program was told to do.
#[derive(Clone, Copy, Debug, PartialEq, Eq)]
pub enum DlpInstruction {
    Delegate { delegated_account: [u8; 32], record: [u8; 32] },
    Undelegate { record: [u8; 32] },
}

/// The account that an instruction names at `index`, if it can be told.
pub open spec fn account_at(
    accounts: Seq<Option<[u8; 32]>>,
    ix_accounts: Seq<u8>,
    index: int,
) -> Option<[u8; 32]> {
    if 0 <= index < ix_accounts.len() && ix_accounts[index] < accounts.len() {
        accounts[ix_accounts[index] as int]
    } else {
        None
    }
}

/// What an instruction tells the delegation program, if it is one that delegates or
/// undelegates and names the accounts in question.
pub open spec fn dlp_instruction(
    accounts: Seq<Option<[u8; 32]>>,
    program_id_index: int,
    ix_accounts: Seq<u8>,
    data: Seq<u8>,
) -> Option<DlpInstruction> {
    if !(0 <= program_id_index < accounts.len() && accounts[program_id_index] == Some(
        DLP_PROGRAM_ID,
    )) || data.len() < 8 {
        None
    } else if le_value(data, 0) == UNDELEGATE_DISCRIMINATOR {
        match account_at(accounts, ix_accounts, DELEGATION_RECORD_ACCOUNT_INDEX as int) {
            Some(record) => Some(DlpInstruction::Undelegate { record }),
            None => None,
        }
    } else if le_value(data, 0) == DELEGATE_DISCRIMINATOR || le_value(data, 0)
        == DELEGATE_WITH_ACTIONS_DISCRIMINATOR {
        match (
            account_at(accounts, ix_accounts, DELEGATE_DELEGATED_ACCOUNT_INDEX as int),
            account_at(accounts, ix_accounts, DELEGATE_RECORD_ACCOUNT_INDEX as int),
        ) {
            (Some(delegated_account), Some(record)) => Some(
                DlpInstruction::Delegate { delegated_account, record },
            ),
            _ => None,
        }
    } else {
        None
    }
}

fn ix_account(accounts: &Vec<Option<[u8; 32]>>, ix_accounts: &Vec<u8>, index: usize) -> (r: Option<
    [u8; 32],
>)
    ensures
        r == account_at(accounts@, ix_accounts@, index as int),
{
    if index < ix_accounts.len() {
        let at = ix_accounts[index] as usize;
        if at < accounts.len() {
            return accounts[at];
        }
    }
    None
}

/// Tells what an instruction says to the delegation program.
pub fn parse_dlp_instruction(
    accounts: &Vec<Option<[u8; 32]>>,
    program_id_index: usize,
    ix_accounts: &Vec<u8>,
    data: &Vec<u8>,
) -> (r: Option<DlpInstruction>)
    ensures
        r == dlp_instruction(accounts@, program_id_index as int, ix_accounts@, data@),
{
    if program_id_index >= accounts.len() || data.len() < 8 {
        return None;
    }
    match accounts[program_id_index] {
        Some(program_id) => {
            let program = Pubkey { bytes: program_id };
            if !program.is(&DLP_PROGRAM_ID) {
                return None;
            }
        },
        None => {
            return None;
        },
    }
    let discriminator: u64 = read_u64(data.as_slice(), 0);
    if discriminator == UNDELEGATE_DISCRIMINATOR {
        match ix_account(accounts, ix_accounts, DELEGATION_RECORD_ACCOUNT_INDEX) {
            Some(record) => Some(DlpInstruction::Undelegate { record }),
            None => None,
        }
    } else if discriminator == DELEGATE_DISCRIMINATOR || discriminator
        == DELEGATE_WITH_ACTIONS_DISCRIMINATOR {
        match (
            ix_account(accounts, ix_accounts, DELEGATE_DELEGATED_ACCOUNT_INDEX),
            ix_account(accounts, ix_accounts, DELEGATE_RECORD_ACCOUNT_INDEX),
        ) {
            (Some(delegated_account), Some(record)) => Some(
                DlpInstruction::Delegate { delegated_account, record },
            ),
            _ => None,
        }
    } else {
        None
    }
}

/// What the instructions of a list tell the delegation program, in their order.
pub open spec fn dlp_instructions(
    accounts: Seq<Option<[u8; 32]>>,
    instructions: Seq<CompiledInstruction>,
) -> Seq<DlpInstruction>
    decreases instructions.len(),
{
    if instructions.len() == 0 {
        Seq::empty()
    } else {
        let front = dlp_instructions(accounts, instructions.drop_last());
        let last = instructions.last();
        match dlp_instruction(
            accounts,
            last.program_id_index as int,
            last.accounts@,
            last.data@,
        ) {
            Some(instruction) => front.push(instruction),
            None => front,
        }
    }
}

/// What the instructions of all lists tell the delegation program, list by list.
pub open spec fn dlp_instructions_of_all(
    accounts: Seq<Option<[u8; 32]>>,
    lists: Seq<Vec<CompiledInstruction>>,
) -> Seq<DlpInstruction>
    decreases lists.len(),
{
    if lists.len() == 0 {
        Seq::empty()
    } else {
        dlp_instructions_of_all(accounts, lists.drop_last()) + dlp_instructions(
            accounts,
            lists.last()@,
        )
    }
}

fn append_dlp_instructions(
    found: &mut Vec<DlpInstruction>,
    accounts: &Vec<Option<[u8; 32]>>,
    instructions: &Vec<CompiledInstruction>,
)
    ensures
        final(found)@ == old(found)@ + dlp_instructions(accounts@, instructions@),
{
    let ghost before = found@;
    let mut i: usize = 0;
    assert(instructions@.take(0).len() == 0);
    assert(found@ =~= before + dlp_instructions(accounts@, instructions@.take(0)));
    while i < instructions.len()
        invariant
            i <= instructions.len(),
            found@ == before + dlp_instructions(accounts@, instructions@.take(i as int)),
        decreases instructions.len() - i,
    {
        let instruction = &instructions[i];
        let ghost longer = instructions@.take(i + 1);
        assert(longer.drop_last() =~= instructions@.take(i as int));
        match parse_dlp_instruction(
            accounts,
            instruction.program_id_index,
            &instruction.accounts,
            &instruction.data,
        ) {
            Some(parsed) => {
                found.push(parsed);
            },
            None => {},
        }
        i = i + 1;
        assert(found@ =~= before + dlp_instructions(accounts@, instructions@.take(i as int)));
    }
    assert(instructions@.take(instructions@.len() as int) =~= instructions@);
}

/// Whether `key` is the address given by `bytes`.
pub open spec fn is_key(key: Option<[u8; 32]>, bytes: Seq<u8>) -> bool {
    match key {
        Some(k) => bytes.len() == 32 && k@ == bytes,
        None => bytes.len() != 32,
    }
}

/// The address that `bytes` give, if there are as many as it takes.
pub fn key_from_bytes(bytes: &Vec<u8>) -> (r: Option<[u8; 32]>)
    ensures
        is_key(r, bytes@),
{
    if bytes.len() != 32 {
        return None;
    }
    let key = read_address(bytes.as_slice(), 0);
    assert(address_at(bytes@, 0) =~= bytes@);
    Some(key.bytes)
}

fn append_keys(keys: &mut Vec<Option<[u8; 32]>>, list: &Vec<Vec<u8>>)
    ensures
        final(keys)@.len() == old(keys)@.len() + list@.len(),
        forall|i: int| 0 <= i < old(keys)@.len() ==> final(keys)@[i] == old(keys)@[i],
        forall|i: int|
            0 <= i < list@.len() ==> is_key(
                #[trigger] final(keys)@[old(keys)@.len() + i],
                list@[i]@,
            ),
{
    let ghost before = keys@;
    let mut i: usize = 0;
    while i < list.len()
        invariant
            i <= list.len(),
            keys@.len() == before.len() + i,
            forall|j: int| 0 <= j < before.len() ==> keys@[j] == before[j],
            forall|j: int|
                0 <= j < i ==> is_key(#[trigger] keys@[before.len() + j], list@[j]@),
        decreases list.len() - i,
    {
        keys.push(key_from_bytes(&list[i]));
        i = i + 1;
    }
}

/// A transaction as the source reports it.
#[derive(Debug)]
pub struct StreamTransaction {
    /// Whether it failed.
    pub failed: bool,
    pub account_keys: Vec<Vec<u8>>,
    pub loaded_writable_addresses: Vec<Vec<u8>>,
    pub loaded_readonly_addresses: Vec<Vec<u8>>,
    pub instructions: Vec<CompiledInstruction>,
    pub inner_instructions: Vec<Vec<CompiledInstruction>>,
}

impl StreamTransaction {
    /// The addresses that the transaction's instructions refer to by place.
    pub open spec fn address_bytes(&self) -> Seq<Seq<u8>> {
        (self.account_keys@ + self.loaded_writable_addresses@
            + self.loaded_readonly_addresses@).map_values(|key: Vec<u8>| key@)
    }

    /// The same, with what is no address left open.
    pub open spec fn addresses(&self) -> Seq<Option<[u8; 32]>> {
        self.address_bytes().map_values(
            |bytes: Seq<u8>|
                choose|key: Option<[u8; 32]>| is_key(key, bytes),
        )
    }

    /// What the transaction told the delegation program: nothing if it failed.
    pub open spec fn told(&self) -> Seq<DlpInstruction> {
        if self.failed {
            Seq::empty()
        } else {
            dlp_instructions(self.addresses(), self.instructions@) + dlp_instructions_of_all(
                self.addresses(),
                self.inner_instructions@,
            )
        }
    }
}

/// Bytes give one address only.
pub proof fn lemma_key_unique(a: Option<[u8; 32]>, b: Option<[u8; 32]>, bytes: Seq<u8>)
    requires
        is_key(a, bytes),
        is_key(b, bytes),
    ensures
        a == b,
{
    if let (Some(x), Some(y)) = (a, b) {
        lemma_pubkey_bytes_determine(Pubkey { bytes: x }, Pubkey { bytes: y });
    }
}

fn addresses_of(transaction: &StreamTransaction) -> (r: Vec<Option<[u8; 32]>>)
    ensures
        r@ == transaction.addresses(),
{
    let mut keys: Vec<Option<[u8; 32]>> = Vec::new();
    append_keys(&mut keys, &transaction.account_keys);
    let ghost first = keys@;
    append_keys(&mut keys, &transaction.loaded_writable_addresses);
    let ghost second = keys@;
    append_keys(&mut keys, &transaction.loaded_readonly_addresses);
    proof {
        let a = transaction.account_keys@;
        let b = transaction.loaded_writable_addresses@;
        let c = transaction.loaded_readonly_addresses@;
        let spec_keys = transaction.addresses();
        assert forall|i: int| 0 <= i < keys@.len() implies keys@[i] == spec_keys[i] by {
            let bytes = transaction.address_bytes()[i];
            if i < a.len() {
                assert(is_key(first[0 + i], a[i]@));
                assert(second[i] == first[i]);
            } else if i < a.len() + b.len() {
                assert(is_key(second[first.len() + (i - a.len())], b[i - a.len()]@));
            } else {
                let j = i - a.len() - b.len();
                assert(is_key(keys@[second.len() + j], c[j]@));
            }
            assert(is_key(keys@[i], bytes));
            lemma_key_unique(
                keys@[i],
                choose|key: Option<[u8; 32]>| is_key(key, bytes),
                bytes,
            );
        }
        assert(keys@ =~= spec_keys);
    }
    keys
}

/// The update that an instruction of the delegation program gives rise to.
pub open spec fn update_of(instruction: DlpInstruction, slot: u64) -> RecordStreamUpdate {
    match instruction {
        DlpInstruction::Delegate {
            delegated_account,
            record,
        } => RecordStreamUpdate::DelegationObserved { delegated_account, record, slot },
        DlpInstruction::Undelegate { record } => RecordStreamUpdate::RecordUndelegated {
            record,
            slot,
        },
    }
}

/// The updates that a transaction gives rise to: one for each delegation and undelegation,
/// top-level instructions first.
pub fn handle_transaction_update(transaction: Option<StreamTransaction>, slot: u64) -> (r: Vec<
    RecordStreamUpdate,
>)
    ensures
        r@ == match transaction {
            Some(transaction) => transaction.told().map_values(
                |instruction: DlpInstruction| update_of(instruction, slot),
            ),
            None => Seq::empty(),
        },
{
    let mut events: Vec<RecordStreamUpdate> = Vec::new();
    let transaction = match transaction {
        Some(transaction) => transaction,
        None => {
            return events;
        },
    };
    if transaction.failed {
        assert(events@ =~= transaction.told().map_values(
            |instruction: DlpInstruction| update_of(instruction, slot),
        ));
        return events;
    }
    let accounts = addresses_of(&transaction);
    let mut instructions: Vec<DlpInstruction> = Vec::new();
    append_dlp_instructions(&mut instructions, &accounts, &transaction.instructions);
    let ghost top = instructions@;
    let lists = &transaction.inner_instructions;
    let mut i: usize = 0;
    assert(instructions@ =~= top + dlp_instructions_of_all(accounts@, lists@.take(0)));
    while i < lists.len()
        invariant
            i <= lists.len(),
            instructions@ == top + dlp_instructions_of_all(accounts@, lists@.take(i as int)),
        decreases lists.len() - i,
    {
        append_dlp_instructions(&mut instructions, &accounts, &lists[i]);
        i = i + 1;
        assert(lists@.take(i as int).drop_last() =~= lists@.take(i - 1));
        assert(instructions@ =~= top + dlp_instructions_of_all(
            accounts@,
            lists@.take(i as int),
        ));
    }
    assert(lists@.take(lists@.len() as int) =~= lists@);
    assert(top =~= dlp_instructions(accounts@, transaction.instructions@));
    assert(instructions@ =~= transaction.told());
    let mut k: usize = 0;
    while k < instructions.len()
        invariant
            k <= instructions.len(),
            events@.len() == k,
            forall|j: int| 0 <= j < k ==> events@[j] == update_of(instructions@[j], slot),
        decreases instructions.len() - k,
    {
        let event = match instructions[k] {
            DlpInstruction::Delegate { delegated_account, record } => {
                RecordStreamUpdate::DelegationObserved { delegated_account, record, slot }
            },
            DlpInstruction::Undelegate { record } => {
                RecordStreamUpdate::RecordUndelegated { record, slot }
            },
        };
        events.push(event);
        k = k + 1;
    }
    assert(events@ =~= transaction.told().map_values(
        |instruction: DlpInstruction| update_of(instruction, slot),
    ));
    events
}

/// An account as the source reports it.
#[derive(Debug)]
pub struct StreamAccount {
    pub pubkey: Vec<u8>,
    pub data: Vec<u8>,
}

/// The delegated account and the expiry slot that an undelegation request gives.
pub fn parse_undelegation_request(data: &[u8]) -> (r: Option<([u8; 32], u64)>)
    ensures
        r is Some <==> is_undelegation_request(data@),
        r matches Some((delegated_account, expires_at_slot)) ==> delegated_account@ == address_at(
            data@,
            8,
        ) && expires_at_slot == le_value(data@, 40),
{
    match read_undelegation_request(data) {
        Some(request) => Some((request.delegated_account.bytes, request.expires_at_slot)),
        None => None,
    }
}

/// The update for an undelegation request kept at `pubkey`: none unless that is the address
/// at which a request for the delegated account belongs.
pub fn undelegation_request_event(
    pubkey: [u8; 32],
    delegated_account: [u8; 32],
    expires_at_slot: u64,
    canonical: &Pubkey,
    slot: u64,
) -> (r: Option<RecordStreamUpdate>)
    ensures
        r == if canonical.bytes == pubkey {
            Some(
                RecordStreamUpdate::UndelegationRequested {
                    request_pda: pubkey,
                    delegated_account,
                    expires_at_slot,
                    slot,
                },
            )
        } else {
            None
        },
{
    if !canonical.is(&pubkey) {
        return None;
    }
    Some(
        RecordStreamUpdate::UndelegationRequested {
            request_pda: pubkey,
            delegated_account,
            expires_at_slot,
            slot,
        },
    )
}

/// Whether `event` is what an account update gives rise to: an undelegation request if the
/// account is marked as one, sound, and kept at the address where it belongs; nothing if it is
/// marked as one and is not; otherwise the account's bytes as those of a delegation record.
pub open spec fn account_event(
    account: Option<StreamAccount>,
    slot: u64,
    event: Option<RecordStreamUpdate>,
) -> bool {
    match account {
        None => event is None,
        Some(account) => if account.pubkey@.len() != 32 {
            event is None
        } else if starts_with_discriminator(account.data@, UNDELEGATION_REQUEST_DISCRIMINATOR) {
            if account.data@.len() >= UNDELEGATION_REQUEST_SIZE && undelegation_request_address(
                address_at(account.data@, 8),
            ) == account.pubkey@ {
                event matches Some(
                    RecordStreamUpdate::UndelegationRequested {
                        request_pda,
                        delegated_account,
                        expires_at_slot,
                        slot: at,
                    },
                ) && request_pda@ == account.pubkey@ && delegated_account@ == address_at(
                    account.data@,
                    8,
                ) && expires_at_slot == le_value(account.data@, 40) && at == slot
            } else {
                event is None
            }
        } else {
            event matches Some(RecordStreamUpdate::Record { record, data, slot: at })
                && record@ == account.pubkey@ && data == account.data && at == slot
        },
    }
}

/// The update that an account update gives rise to, if any.
pub fn handle_account_update(account: Option<StreamAccount>, slot: u64) -> (r: Option<
    RecordStreamUpdate,
>)
    ensures
        account_event(account, slot, r),
{
    let account = match account {
        Some(account) => account,
        None => {
            return None;
        },
    };
    let pubkey = match key_from_bytes(&account.pubkey) {
        Some(pubkey) => pubkey,
        None => {
            return None;
        },
    };
    if has_discriminator(account.data.as_slice(), UNDELEGATION_REQUEST_DISCRIMINATOR) {
        match parse_undelegation_request(account.data.as_slice()) {
            Some((delegated_account, expires_at_slot)) => {
                let delegated = Pubkey { bytes: delegated_account };
                let canonical = undelegation_request_pda(&delegated);
                proof {
                    if canonical@ == pubkey@ {
                        lemma_pubkey_bytes_determine(canonical, Pubkey { bytes: pubkey });
                    }
                }
                undelegation_request_event(
                    pubkey,
                    delegated_account,
                    expires_at_slot,
                    &canonical,
                    slot,
                )
            },
            None => None,
        }
    } else {
        Some(RecordStreamUpdate::Record { record: pubkey, data: account.data, slot })
    }
}

/// One event of the source.
#[derive(Debug)]
pub enum StreamEvent {
    Account { account: Option<StreamAccount>, slot: u64 },
    Slot { slot: u64, confirmed: bool },
    Transaction { transaction: Option<StreamTransaction>, slot: u64 },
    /// An event that says nothing about delegations.
    Other,
    /// The source failed.
    Error,
}

/// The bytes of account data that an event carries.
pub open spec fn account_payload(event: StreamEvent) -> nat {
    match event {
        StreamEvent::Account { account: Some(account), .. } => account.data@.len(),
        _ => 0,
    }
}

/// Whether `clean` is `event` without account data that no account can hold. A record that
/// lost its data that way cannot be read, so it has to be asked for.
pub open spec fn sanitized(event: StreamEvent, clean: StreamEvent) -> bool {
    if account_payload(event) > MAX_PERMITTED_DATA_LENGTH {
        &&& event matches StreamEvent::Account { account: Some(account), slot }
        &&& clean matches StreamEvent::Account { account: Some(cleaned), slot: at }
        &&& at == slot
        &&& cleaned.pubkey == account.pubkey
        &&& cleaned.data@.len() == 0
    } else {
        clean == event
    }
}

/// Drops account data that no account can hold. Returns the bytes that are left, with the
/// event.
pub fn sanitize_account_update_payload(event: StreamEvent) -> (r: (StreamEvent, usize))
    ensures
        sanitized(event, r.0),
        r.1 == account_payload(r.0),
{
    match event {
        StreamEvent::Account { account: Some(account), slot } => {
            if account.data.len() > MAX_PERMITTED_DATA_LENGTH {
                let cleaned = StreamAccount { pubkey: account.pubkey, data: Vec::new() };
                (StreamEvent::Account { account: Some(cleaned), slot }, 0)
            } else {
                let bytes = account.data.len();
                (StreamEvent::Account { account: Some(account), slot }, bytes)
            }
        },
        event => (event, 0),
    }
}

/// How far the stream has come.
#[derive(Clone, Copy, Debug, PartialEq, Eq, Structural)]
pub struct RecordStream {
    /// The newest slot that was observed; after a violation, the slot to replay from.
    pub slot: u64,
    /// The newest slot up to which nothing was missed.
    pub last_confirmed_slot: u64,
    /// The last barrier that was told since the last interruption; 0 if none was.
    pub watermark: u64,
    /// Counts the interruptions.
    pub continuity_epoch: u64,
}

/// What an event leads to: the updates to send, in their order, and whether to read on.
/// Otherwise the source has to be connected anew.
#[derive(Debug)]
pub struct StreamStep {
    pub deliver: Vec<RecordStreamUpdate>,
    pub proceed: bool,
}

pub open spec fn max_slot(a: u64, b: u64) -> u64 {
    if a >= b {
        a
    } else {
        b
    }
}

pub open spec fn min_slot(a: u64, b: u64) -> u64 {
    if a <= b {
        a
    } else {
        b
    }
}

impl RecordStream {
    /// The stream before its first event.
    pub fn new() -> (r: RecordStream)
        ensures
            r == (RecordStream {
                slot: 0,
                last_confirmed_slot: 0,
                watermark: 0,
                continuity_epoch: 0,
            }),
    {
        RecordStream { slot: 0, last_confirmed_slot: 0, watermark: 0, continuity_epoch: 0 }
    }

    /// The stream after an interruption: no barrier holds any more, and what was sent before
    /// counts as old.
    pub open spec fn interrupted(self) -> RecordStream {
        RecordStream {
            watermark: 0,
            continuity_epoch: if self.continuity_epoch == u64::MAX {
                0
            } else {
                (self.continuity_epoch + 1) as u64
            },
            ..self
        }
    }

    /// Whether an event at `slot` comes after a barrier that said it could not.
    pub open spec fn violates_watermark(self, slot: u64) -> bool {
        self.watermark > 0 && slot <= self.watermark
    }

    /// The stream after it saw an account or transaction event at `slot`.
    pub open spec fn observed(self, slot: u64) -> RecordStream {
        if self.violates_watermark(slot) {
            RecordStream {
                slot,
                last_confirmed_slot: min_slot(
                    self.last_confirmed_slot,
                    if slot == 0 {
                        0
                    } else {
                        (slot - 1) as u64
                    },
                ),
                ..self.interrupted()
            }
        } else {
            RecordStream { slot: max_slot(self.slot, slot), ..self }
        }
    }

    /// The stream after it saw a confirmed slot.
    pub open spec fn confirmed(self, slot: u64) -> RecordStream {
        if slot > self.watermark {
            RecordStream {
                slot: max_slot(self.slot, slot),
                last_confirmed_slot: max_slot(self.last_confirmed_slot, slot),
                watermark: slot,
                ..self
            }
        } else {
            RecordStream { slot: max_slot(self.slot, slot), ..self }
        }
    }

    /// Gives up every barrier and marks what was sent before as old.
    pub fn invalidate_continuity(&mut self)
        ensures
            *final(self) == old(self).interrupted(),
    {
        self.watermark = 0;
        self.continuity_epoch = self.continuity_epoch.wrapping_add(1);
    }

    /// Notes an event at `slot`; if it violates the last barrier, gives the barrier up and
    /// sets the replay back to that slot. Returns whether it did.
    pub fn interrupt_on_watermark_violation(&mut self, slot: u64) -> (violated: bool)
        ensures
            violated == old(self).violates_watermark(slot),
            *final(self) == old(self).observed(slot),
    {
        if self.slot < slot {
            self.slot = slot;
        }
        if self.watermark > 0 && slot <= self.watermark {
            self.slot = slot;
            let before = slot.saturating_sub(1);
            if before < self.last_confirmed_slot {
                self.last_confirmed_slot = before;
            }
            self.invalidate_continuity();
            true
        } else {
            false
        }
    }

    /// Takes one event of the source.
    pub fn handle_update(&mut self, event: StreamEvent) -> (r: StreamStep)
        ensures
            match event {
                StreamEvent::Error => {
                    &&& *final(self) == old(self).interrupted()
                    &&& r.deliver@ == seq![RecordStreamUpdate::SyncInterrupted]
                    &&& !r.proceed
                },
                StreamEvent::Other => {
                    &&& *final(self) == *old(self)
                    &&& r.deliver@.len() == 0
                    &&& r.proceed
                },
                StreamEvent::Slot { slot, confirmed } => {
                    &&& *final(self) == if confirmed {
                        old(self).confirmed(slot)
                    } else {
                        *old(self)
                    }
                    &&& r.deliver@ == if confirmed && slot > old(self).watermark {
                        seq![RecordStreamUpdate::SlotAdvanced(slot)]
                    } else {
                        seq![]
                    }
                    &&& r.proceed
                },
                StreamEvent::Account { account, slot } => {
                    let violated = old(self).violates_watermark(slot);
                    &&& *final(self) == old(self).observed(slot)
                    &&& r.proceed == !violated
                    &&& exists|clean: StreamEvent, told: Option<RecordStreamUpdate>|
                        {
                            &&& #[trigger] sanitized(event, clean)
                            &&& #[trigger] account_event_told(clean, told)
                            &&& r.deliver@ == interruption(violated) + one_or_none(told)
                        }
                },
                StreamEvent::Transaction { transaction, slot } => {
                    let violated = old(self).violates_watermark(slot);
                    &&& *final(self) == old(self).observed(slot)
                    &&& r.proceed == !violated
                    &&& r.deliver@ == interruption(violated) + match transaction {
                        Some(transaction) => transaction.told().map_values(
                            |instruction: DlpInstruction| update_of(instruction, slot),
                        ),
                        None => Seq::empty(),
                    }
                },
            },
    {
        let mut deliver: Vec<RecordStreamUpdate> = Vec::new();
        let ghost raw = event;
        let (event, _) = sanitize_account_update_payload(event);
        let ghost clean = event;
        match event {
            StreamEvent::Error => {
                self.invalidate_continuity();
                deliver.push(RecordStreamUpdate::SyncInterrupted);
                assert(deliver@ =~= seq![RecordStreamUpdate::SyncInterrupted]);
                StreamStep { deliver, proceed: false }
            },
            StreamEvent::Other => StreamStep { deliver, proceed: true },
            StreamEvent::Slot { slot, confirmed } => {
                if confirmed {
                    if self.slot < slot {
                        self.slot = slot;
                    }
                    if slot > self.watermark {
                        self.watermark = slot;
                        if self.last_confirmed_slot < slot {
                            self.last_confirmed_slot = slot;
                        }
                        deliver.push(RecordStreamUpdate::SlotAdvanced(slot));
                        assert(deliver@ =~= seq![RecordStreamUpdate::SlotAdvanced(slot)]);
                    }
                }
                StreamStep { deliver, proceed: true }
            },
            StreamEvent::Account { account, slot } => {
                let violated = self.interrupt_on_watermark_violation(slot);
                if violated {
                    deliver.push(RecordStreamUpdate::SyncInterrupted);
                }
                assert(deliver@ =~= interruption(violated));
                let told = handle_account_update(account, slot);
                let ghost said = told;
                match told {
                    Some(update) => {
                        deliver.push(update);
                    },
                    None => {},
                }
                assert(deliver@ =~= interruption(violated) + one_or_none(said));
                assert(sanitized(raw, clean) && account_event_told(clean, said));
                StreamStep { deliver, proceed: !violated }
            },
            StreamEvent::Transaction { transaction, slot } => {
                let violated = self.interrupt_on_watermark_violation(slot);
                if violated {
                    deliver.push(RecordStreamUpdate::SyncInterrupted);
                }
                assert(deliver@ =~= interruption(violated));
                let mut told = handle_transaction_update(transaction, slot);
                deliver.append(&mut told);
                StreamStep { deliver, proceed: !violated }
            },
        }
    }
}

/// Whether `told` is what an account event gives rise to.
pub open spec fn account_event_told(event: StreamEvent, told: Option<RecordStreamUpdate>) -> bool {
    event matches StreamEvent::Account { account, slot } && account_event(account, slot, told)
}

/// What is sent ahead of an event that violates a barrier.
pub open spec fn interruption(violated: bool) -> Seq<RecordStreamUpdate> {
    if violated {
        seq![RecordStreamUpdate::SyncInterrupted]
    } else {
        seq![]
    }
}

/// The update as a list.
pub open spec fn one_or_none(update: Option<RecordStreamUpdate>) -> Seq<RecordStreamUpdate> {
    match update {
        Some(update) => seq![update],
        None => seq![],
    }
}

/// What the stream promises about itself: no barrier is ahead of what was observed or of what
/// is known to be complete.
pub open spec fn stream_consistent(stream: RecordStream) -> bool {
    stream.watermark <= stream.slot && stream.watermark <= stream.last_confirmed_slot
}

/// No event makes the stream inconsistent, and none takes a barrier back except by an
/// interruption, which takes all of them back.
pub proof fn law_stream_stays_consistent(stream: RecordStream, slot: u64)
    requires
        stream_consistent(stream),
    ensures
        stream_consistent(stream.interrupted()),
        stream_consistent(stream.observed(slot)),
        stream_consistent(stream.confirmed(slot)),
        stream.confirmed(slot).watermark >= stream.watermark,
        stream.observed(slot).watermark == stream.watermark || stream.observed(slot).watermark == 0,
        stream.interrupted().continuity_epoch != stream.continuity_epoch,
{
}

/// After an event that violated a barrier nothing from its slot on counts as complete, and a
/// replay starts no later than there.
pub proof fn law_violation_rewinds(stream: RecordStream, slot: u64)
    requires
        stream.violates_watermark(slot),
    ensures
        stream.observed(slot).slot == slot,
        stream.observed(slot).last_confirmed_slot < slot || slot == 0,
        stream.observed(slot).watermark == 0,
        !stream.observed(slot).violates_watermark(slot),
{
}

/// Where a new connection is to be replayed from: a margin behind the newest slot, but not
/// before the first; from nowhere once replay failed too often.
pub fn reconnect_from_slot(slot: u64, replay_failures: usize) -> (r: Option<u64>)
    ensures
        r == if replay_failures < MAX_REPLAY_RECONNECT_FAILURES {
            Some(
                if slot > RESUME_SAFETY_MARGIN_SLOTS + 1 {
                    (slot - RESUME_SAFETY_MARGIN_SLOTS) as u64
                } else {
                    1
                },
            )
        } else {
            None
        },
{
    if replay_failures >= MAX_REPLAY_RECONNECT_FAILURES {
        return None;
    }
    let behind = slot.saturating_sub(RESUME_SAFETY_MARGIN_SLOTS);
    if behind > 1 {
        Some(behind)
    } else {
        Some(1)
    }
}

/// The attempts to connect anew after the stream broke.
#[derive(Clone, Copy, Debug, PartialEq, Eq, Structural)]
pub struct Reconnect {
    /// The pause after the next failure.
    pub delay_secs: u64,
    pub replay_failures: usize,
}

impl Reconnect {
    /// Before the first attempt.
    pub fn new() -> (r: Reconnect)
        ensures
            r.delay_secs == RECONNECT_BASE_DELAY_SECS,
            r.replay_failures == 0,
    {
        Reconnect { delay_secs: RECONNECT_BASE_DELAY_SECS, replay_failures: 0 }
    }

    /// Notes a failed attempt. Returns the pause to make, which doubles from one failure to
    /// the next up to a limit.
    pub fn failed(&mut self) -> (pause_secs: u64)
        requires
            old(self).delay_secs <= RECONNECT_MAX_DELAY_SECS,
        ensures
            pause_secs == old(self).delay_secs,
            final(self).delay_secs == if old(self).delay_secs * 2 <= RECONNECT_MAX_DELAY_SECS {
                (old(self).delay_secs * 2) as u64
            } else {
                RECONNECT_MAX_DELAY_SECS
            },
            final(self).replay_failures == if old(self).replay_failures == usize::MAX {
                usize::MAX
            } else {
                (old(self).replay_failures + 1) as usize
            },
    {
        let pause_secs = self.delay_secs;
        self.replay_failures = self.replay_failures.saturating_add(1);
        let doubled = self.delay_secs * 2;
        self.delay_secs = if doubled <= RECONNECT_MAX_DELAY_SECS {
            doubled
        } else {
            RECONNECT_MAX_DELAY_SECS
        };
        pause_secs
    }
}

impl RecordStream {
    /// Notes a new connection that was replayed from `from_slot` and has confirmed
    /// `confirmed_slot`. Without a replay the slots in between have to be asked for.
    pub fn reconnected(&mut self, from_slot: Option<u64>, confirmed_slot: u64) -> (r: Option<
        ReplayRecoveryRange,
    >)
        ensures
            *final(self) == (RecordStream { watermark: 0, ..*old(self) }),
            r == if from_slot is Some {
                None
            } else {
                Some(
                    ReplayRecoveryRange {
                        after_slot: old(self).last_confirmed_slot,
                        through_slot: confirmed_slot,
                    },
                )
            },
    {
        self.watermark = 0;
        match from_slot {
            Some(_) => None,
            None => Some(
                ReplayRecoveryRange {
                    after_slot: self.last_confirmed_slot,
                    through_slot: confirmed_slot,
                },
            ),
        }
    }
}

/// Why the stream could not be had.
#[derive(Debug)]
pub enum RecordStreamError {
    Connection(&'static str),
    Laserstream(String),
}

/// The events of a new connection up to its first confirmed slot.
#[derive(Debug)]
pub struct StartupBuffer {
    pub updates: Vec<StreamEvent>,
    pub pending_payload_bytes: usize,
}

impl StartupBuffer {
    pub open spec fn wf(&self) -> bool {
        &&& self.updates@.len() < MAX_PENDING_UPDATES
        &&& self.pending_payload_bytes <= MAX_PENDING_PAYLOAD_BYTES
    }

    /// Nothing was read yet.
    pub fn new() -> (r: StartupBuffer)
        ensures
            r.wf(),
            r.updates@.len() == 0,
            r.pending_payload_bytes == 0,
    {
        StartupBuffer { updates: Vec::new(), pending_payload_bytes: 0 }
    }

    /// Takes the next item of the source. Returns the confirmed slot once there is one; the
    /// connection is of no use if the source ends or fails before, or sends too much.
    pub fn push(&mut self, item: Option<Result<StreamEvent, String>>) -> (r: Result<
        Option<u64>,
        RecordStreamError,
    >)
        requires
            old(self).wf(),
        ensures
            match item {
                None => {
                    &&& r matches Err(RecordStreamError::Connection(m)) && m@
                        == "stream closed before confirmed-slot barrier"@
                    &&& *final(self) == *old(self)
                },
                Some(Err(message)) => {
                    &&& r matches Err(RecordStreamError::Laserstream(m)) && m == message
                    &&& *final(self) == *old(self)
                },
                Some(Ok(event)) => exists|clean: StreamEvent|
                    {
                        let bytes = old(self).pending_payload_bytes + account_payload(clean);
                        &&& #[trigger] sanitized(event, clean)
                        &&& if bytes > MAX_PENDING_PAYLOAD_BYTES {
                            &&& r matches Err(RecordStreamError::Connection(m)) && m@
                                == "confirmed-slot barrier exceeded payload budget"@
                            &&& final(self).updates@ == old(self).updates@
                        } else {
                            &&& final(self).updates@ == old(self).updates@.push(clean)
                            &&& final(self).pending_payload_bytes == bytes
                            &&& match event {
                                StreamEvent::Slot { slot, confirmed: true } => r
                                    matches Ok(Some(at)) && at == slot,
                                _ => if old(self).updates@.len() + 1 >= MAX_PENDING_UPDATES {
                                    r matches Err(RecordStreamError::Connection(m)) && m@
                                        == "confirmed-slot barrier exceeded startup buffer"@
                                } else {
                                    r matches Ok(None)
                                },
                            }
                        }
                    },
            },
            r matches Ok(None) ==> final(self).wf(),
    {
        let event = match item {
            None => {
                return Err(
                    RecordStreamError::Connection("stream closed before confirmed-slot barrier"),
                );
            },
            Some(Err(message)) => {
                return Err(RecordStreamError::Laserstream(message));
            },
            Some(Ok(event)) => event,
        };
        let ghost raw = event;
        let (event, bytes) = sanitize_account_update_payload(event);
        assert(sanitized(raw, event));
        let total = self.pending_payload_bytes.saturating_add(bytes);
        if total > MAX_PENDING_PAYLOAD_BYTES {
            return Err(
                RecordStreamError::Connection("confirmed-slot barrier exceeded payload budget"),
            );
        }
        self.pending_payload_bytes = total;
        let confirmed_slot = match &event {
            StreamEvent::Slot { slot, confirmed } => if *confirmed {
                Some(*slot)
            } else {
                None
            },
            _ => None,
        };
        self.updates.push(event);
        match confirmed_slot {
            Some(slot) => Ok(Some(slot)),
            None => if self.updates.len() >= MAX_PENDING_UPDATES {
                Err(
                    RecordStreamError::Connection(
                        "confirmed-slot barrier exceeded startup buffer",
                    ),
                )
            } else {
                Ok(None)
            },
        }
    }
}

/// A delegation that was found in a block.
#[derive(Clone, Copy, Debug, PartialEq, Eq)]
pub struct RecoveredDelegation {
    pub delegated_account: Pubkey,
    pub record: Pubkey,
    pub slot: u64,
}

/// The delegation that an instruction makes, if it makes one.
pub open spec fn delegation_made(
    accounts: Seq<Option<[u8; 32]>>,
    program_id_index: int,
    ix_accounts: Seq<u8>,
    data: Seq<u8>,
    slot: u64,
) -> Option<RecoveredDelegation> {
    match dlp_instruction(accounts, program_id_index, ix_accounts, data) {
        Some(DlpInstruction::Delegate { delegated_account, record }) => Some(
            RecoveredDelegation {
                delegated_account: Pubkey { bytes: delegated_account },
                record: Pubkey { bytes: record },
                slot,
            },
        ),
        _ => None,
    }
}

/// The delegation that an instruction makes, if it makes one.
pub fn recover_delegation(
    accounts: &Vec<Option<[u8; 32]>>,
    program_id_index: usize,
    ix_accounts: &Vec<u8>,
    data: &Vec<u8>,
    slot: u64,
) -> (r: Option<RecoveredDelegation>)
    ensures
        r == delegation_made(accounts@, program_id_index as int, ix_accounts@, data@, slot),
{
    match parse_dlp_instruction(accounts, program_id_index, ix_accounts, data) {
        Some(DlpInstruction::Delegate { delegated_account, record }) => Some(
            RecoveredDelegation {
                delegated_account: Pubkey { bytes: delegated_account },
                record: Pubkey { bytes: record },
                slot,
            },
        ),
        _ => None,
    }
}

/// An instruction that another instruction made, as blocks report it.
#[derive(Debug)]
pub enum InnerInstruction {
    /// With its data as base58 text.
    Compiled { program_id_index: usize, accounts: Vec<u8>, data: String },
    /// In a form that keeps nothing of its bytes.
    Parsed,
}

/// How the bytes of a transaction are written as text.
#[derive(Clone, Copy, Debug, PartialEq, Eq)]
pub enum TransactionBinaryEncoding {
    Base58,
    Base64,
}

/// A transaction as blocks report it.
#[derive(Debug)]
pub enum EncodedTransaction {
    /// Base58 text.
    LegacyBinary(String),
    Binary(String, TransactionBinaryEncoding),
    /// In a form that keeps nothing of its bytes.
    Json,
    /// The accounts alone.
    Accounts,
}

/// What a transaction asks for.
#[derive(Debug)]
pub struct TransactionMessage {
    pub static_account_keys: Vec<Pubkey>,
    pub instructions: Vec<CompiledInstruction>,
}

impl View for CompiledInstruction {
    type V = (int, Seq<u8>, Seq<u8>);

    open spec fn view(&self) -> (int, Seq<u8>, Seq<u8>) {
        (self.program_id_index as int, self.accounts@, self.data@)
    }
}

/// The addresses of a message and its instructions.
pub type MessageView = (Seq<Seq<u8>>, Seq<(int, Seq<u8>, Seq<u8>)>);

impl View for TransactionMessage {
    type V = MessageView;

    open spec fn view(&self) -> MessageView {
        (
            self.static_account_keys@.map_values(|key: Pubkey| key@),
            self.instructions@.map_values(|instruction: CompiledInstruction| instruction@),
        )
    }
}

/// The view of an optional message.
pub open spec fn message_view(message: Option<TransactionMessage>) -> Option<MessageView> {
    match message {
        Some(message) => Some(message@),
        None => None,
    }
}

/// The message that `EncodedTransaction::decode` of `solana_transaction_status_client_types`
/// finds in a text, which is base64 or else base58: nothing if the text cannot be read, or the
/// transaction is not sane.
pub uninterp spec fn decoded_transaction(
    text: Seq<char>,
    base64: bool,
) -> Option<(Seq<Seq<u8>>, Seq<(int, Seq<u8>, Seq<u8>)>)>;

/// `EncodedTransaction::decode` of `solana_transaction_status_client_types` on a binary
/// transaction: the addresses and the instructions of its message.
#[verifier::external_body]
fn decode_transaction(text: &String, encoding: TransactionBinaryEncoding) -> (r: Option<
    TransactionMessage,
>)
    ensures
        message_view(r) == decoded_transaction(text@, encoding is Base64),
{
    let encoding = match encoding {
        TransactionBinaryEncoding::Base58 => solana_transaction_status_client_types::TransactionBinaryEncoding::Base58,
        TransactionBinaryEncoding::Base64 => solana_transaction_status_client_types::TransactionBinaryEncoding::Base64,
    };
    let transaction = solana_transaction_status_client_types::EncodedTransaction::Binary(text.clone(), encoding).decode()?;
    let message = &transaction.message;
    Some(TransactionMessage {
        static_account_keys: message.static_account_keys().iter().map(|key| Pubkey { bytes: key.to_bytes() }).collect(),
        instructions: message.instructions().iter().map(|instruction| CompiledInstruction {
            program_id_index: instruction.program_id_index as usize,
            accounts: instruction.accounts.clone(),
            data: instruction.data.clone(),
        }).collect(),
    })
}

impl EncodedTransaction {
    /// The message of the transaction, if its bytes are there and can be read.
    pub open spec fn message(&self) -> Option<MessageView> {
        match self {
            EncodedTransaction::LegacyBinary(text) => decoded_transaction(text@, false),
            EncodedTransaction::Binary(text, encoding) => decoded_transaction(
                text@,
                encoding is Base64,
            ),
            EncodedTransaction::Json => None,
            EncodedTransaction::Accounts => None,
        }
    }

    /// Reads the message of the transaction.
    pub fn decode(&self) -> (r: Option<TransactionMessage>)
        ensures
            message_view(r) == self.message(),
    {
        match self {
            EncodedTransaction::LegacyBinary(text) => decode_transaction(
                text,
                TransactionBinaryEncoding::Base58,
            ),
            EncodedTransaction::Binary(text, encoding) => decode_transaction(text, *encoding),
            EncodedTransaction::Json => None,
            EncodedTransaction::Accounts => None,
        }
    }
}

/// What became of a transaction.
#[derive(Debug)]
pub struct TransactionMeta {
    /// Whether it failed.
    pub failed: bool,
    /// The looked-up addresses as text, the writable ones first; empty if there are none.
    pub loaded_writable: Vec<String>,
    pub loaded_readonly: Vec<String>,
    pub inner_instructions: Vec<Vec<InnerInstruction>>,
}

/// A transaction of a block, and what became of it where that is known.
#[derive(Debug)]
pub struct BlockTransaction {
    pub transaction: EncodedTransaction,
    pub meta: Option<TransactionMeta>,
}

/// The bytes of an optional address as an array.
pub open spec fn is_parsed(key: Option<[u8; 32]>, text: Seq<char>) -> bool {
    match key {
        Some(key) => address_in_text(text) == Some(key@),
        None => address_in_text(text) is None,
    }
}

/// Whether `accounts` are the addresses that the instructions of a transaction refer to by
/// place: those of the message, then the looked-up ones.
pub open spec fn are_addresses(
    accounts: Seq<Option<[u8; 32]>>,
    keys: Seq<Seq<u8>>,
    meta: TransactionMeta,
) -> bool {
    let texts = meta.loaded_writable@ + meta.loaded_readonly@;
    &&& accounts.len() == keys.len() + texts.len()
    &&& forall|i: int|
        0 <= i < keys.len() ==> {
            &&& #[trigger] accounts[i] is Some
            &&& accounts[i]->0@ == keys[i]
        }
    &&& forall|i: int|
        keys.len() <= i < accounts.len() ==> is_parsed(
            #[trigger] accounts[i],
            texts[i - keys.len()]@,
        )
}

/// The delegations that top-level instructions make.
pub open spec fn delegations_made(
    accounts: Seq<Option<[u8; 32]>>,
    instructions: Seq<(int, Seq<u8>, Seq<u8>)>,
    slot: u64,
) -> Seq<RecoveredDelegation>
    decreases instructions.len(),
{
    if instructions.len() == 0 {
        Seq::empty()
    } else {
        let front = delegations_made(accounts, instructions.drop_last(), slot);
        let (program_id_index, ix_accounts, data) = instructions.last();
        match delegation_made(accounts, program_id_index, ix_accounts, data, slot) {
            Some(delegation) => front.push(delegation),
            None => front,
        }
    }
}

/// The delegation that an inner instruction makes, if its data can be read.
pub open spec fn inner_delegation_made(
    accounts: Seq<Option<[u8; 32]>>,
    instruction: InnerInstruction,
    slot: u64,
) -> Option<RecoveredDelegation> {
    match instruction {
        InnerInstruction::Compiled { program_id_index, accounts: ix_accounts, data } => {
            match base58_bytes(data@) {
                Some(bytes) => delegation_made(
                    accounts,
                    program_id_index as int,
                    ix_accounts@,
                    bytes,
                    slot,
                ),
                None => None,
            }
        },
        InnerInstruction::Parsed => None,
    }
}

/// The delegations that inner instructions make.
pub open spec fn inner_delegations_made(
    accounts: Seq<Option<[u8; 32]>>,
    instructions: Seq<InnerInstruction>,
    slot: u64,
) -> Seq<RecoveredDelegation>
    decreases instructions.len(),
{
    if instructions.len() == 0 {
        Seq::empty()
    } else {
        let front = inner_delegations_made(accounts, instructions.drop_last(), slot);
        match inner_delegation_made(accounts, instructions.last(), slot) {
            Some(delegation) => front.push(delegation),
            None => front,
        }
    }
}

/// The delegations that all lists of inner instructions make, list by list.
pub open spec fn all_inner_delegations_made(
    accounts: Seq<Option<[u8; 32]>>,
    lists: Seq<Vec<InnerInstruction>>,
    slot: u64,
) -> Seq<RecoveredDelegation>
    decreases lists.len(),
{
    if lists.len() == 0 {
        Seq::empty()
    } else {
        all_inner_delegations_made(accounts, lists.drop_last(), slot) + inner_delegations_made(
            accounts,
            lists.last()@,
            slot,
        )
    }
}

/// The addresses that a transaction refers to by place.
pub open spec fn transaction_addresses(keys: Seq<Seq<u8>>, meta: TransactionMeta) -> Seq<
    Option<[u8; 32]>,
> {
    choose|accounts: Seq<Option<[u8; 32]>>| are_addresses(accounts, keys, meta)
}

/// The delegations that a transaction makes: none if it failed.
pub open spec fn transaction_delegations(
    message: MessageView,
    meta: TransactionMeta,
    slot: u64,
) -> Seq<RecoveredDelegation> {
    let accounts = transaction_addresses(message.0, meta);
    if meta.failed {
        Seq::empty()
    } else {
        delegations_made(accounts, message.1, slot) + all_inner_delegations_made(
            accounts,
            meta.inner_instructions@,
            slot,
        )
    }
}

/// The delegations that the transactions of a block make, in their order. A transaction
/// without an outcome, or that cannot be decoded, makes none.
pub open spec fn block_delegations(transactions: Seq<BlockTransaction>, slot: u64) -> Seq<
    RecoveredDelegation,
>
    decreases transactions.len(),
{
    if transactions.len() == 0 {
        Seq::empty()
    } else {
        let front = block_delegations(transactions.drop_last(), slot);
        let last = transactions.last();
        match (last.meta, last.transaction.message()) {
            (Some(meta), Some(message)) => front + transaction_delegations(message, meta, slot),
            _ => front,
        }
    }
}

fn append_parsed(keys: &mut Vec<Option<[u8; 32]>>, texts: &Vec<String>)
    ensures
        final(keys)@.len() == old(keys)@.len() + texts@.len(),
        forall|i: int| 0 <= i < old(keys)@.len() ==> final(keys)@[i] == old(keys)@[i],
        forall|i: int|
            0 <= i < texts@.len() ==> is_parsed(
                #[trigger] final(keys)@[old(keys)@.len() + i],
                texts@[i]@,
            ),
{
    let ghost before = keys@;
    let mut i: usize = 0;
    while i < texts.len()
        invariant
            i <= texts.len(),
            keys@.len() == before.len() + i,
            forall|j: int| 0 <= j < before.len() ==> keys@[j] == before[j],
            forall|j: int|
                0 <= j < i ==> is_parsed(#[trigger] keys@[before.len() + j], texts@[j]@),
        decreases texts.len() - i,
    {
        match parse_address(&texts[i]) {
            Some(key) => {
                keys.push(Some(key.bytes));
            },
            None => {
                keys.push(None);
            },
        }
        i = i + 1;
    }
}

/// Two lists of addresses of a transaction are the same.
pub proof fn lemma_addresses_unique(
    keys: Seq<Seq<u8>>,
    meta: TransactionMeta,
    a: Seq<Option<[u8; 32]>>,
    b: Seq<Option<[u8; 32]>>,
)
    requires
        are_addresses(a, keys, meta),
        are_addresses(b, keys, meta),
    ensures
        a == b,
{
    assert forall|i: int| 0 <= i < a.len() implies a[i] == b[i] by {
        if i < keys.len() {
            assert(a[i] is Some && b[i] is Some);
        } else {
            let text = (meta.loaded_writable@ + meta.loaded_readonly@)[i - keys.len()]@;
            assert(is_parsed(a[i], text));
            assert(is_parsed(b[i], text));
        }
        if let (Some(x), Some(y)) = (a[i], b[i]) {
            lemma_pubkey_bytes_determine(Pubkey { bytes: x }, Pubkey { bytes: y });
        }
    }
    assert(a =~= b);
}

fn message_addresses(message: &TransactionMessage, meta: &TransactionMeta) -> (r: Vec<
    Option<[u8; 32]>,
>)
    ensures
        r@ == transaction_addresses(message@.0, *meta),
{
    let mut keys: Vec<Option<[u8; 32]>> = Vec::new();
    let fixed = &message.static_account_keys;
    let mut i: usize = 0;
    while i < fixed.len()
        invariant
            i <= fixed.len(),
            keys@.len() == i,
            forall|j: int| 0 <= j < i ==> #[trigger] keys@[j] == Some(fixed@[j].bytes),
        decreases fixed.len() - i,
    {
        keys.push(Some(fixed[i].bytes));
        i = i + 1;
    }
    let ghost first = keys@;
    append_parsed(&mut keys, &meta.loaded_writable);
    let ghost second = keys@;
    append_parsed(&mut keys, &meta.loaded_readonly);
    proof {
        let w = meta.loaded_writable@;
        let texts = w + meta.loaded_readonly@;
        assert forall|i: int| 0 <= i < fixed@.len() implies {
            &&& #[trigger] keys@[i] is Some
            &&& keys@[i]->0@ == message@.0[i]
        } by {
            assert(first[i] == Some(fixed@[i].bytes));
            assert(second[i] == first[i]);
        }
        assert forall|i: int| fixed@.len() <= i < keys@.len() implies is_parsed(
            #[trigger] keys@[i],
            texts[i - fixed@.len()]@,
        ) by {
            let j = i - fixed@.len();
            if j < w.len() {
                assert(is_parsed(second[first.len() + j], w[j]@));
            } else {
                let k = j - w.len();
                assert(is_parsed(keys@[second.len() + k], meta.loaded_readonly@[k]@));
            }
        }
        assert(are_addresses(keys@, message@.0, *meta));
        lemma_addresses_unique(
            message@.0,
            *meta,
            keys@,
            transaction_addresses(message@.0, *meta),
        );
    }
    keys
}

fn append_delegations(
    found: &mut Vec<RecoveredDelegation>,
    accounts: &Vec<Option<[u8; 32]>>,
    message: &TransactionMessage,
    slot: u64,
)
    ensures
        final(found)@ == old(found)@ + delegations_made(accounts@, message@.1, slot),
{
    let ghost before = found@;
    let ghost views = message@.1;
    let instructions = &message.instructions;
    let mut i: usize = 0;
    assert(found@ =~= before + delegations_made(accounts@, views.take(0), slot));
    while i < instructions.len()
        invariant
            i <= instructions.len(),
            views == message@.1,
            *instructions == message.instructions,
            found@ == before + delegations_made(accounts@, views.take(i as int), slot),
        decreases instructions.len() - i,
    {
        let instruction = &instructions[i];
        assert(views[i as int] == instruction@);
        match recover_delegation(
            accounts,
            instruction.program_id_index,
            &instruction.accounts,
            &instruction.data,
            slot,
        ) {
            Some(delegation) => {
                found.push(delegation);
            },
            None => {},
        }
        i = i + 1;
        assert(views.take(i as int).drop_last() =~= views.take(i - 1));
        assert(found@ =~= before + delegations_made(accounts@, views.take(i as int), slot));
    }
    assert(views.take(views.len() as int) =~= views);
}

fn append_inner_delegations(
    found: &mut Vec<RecoveredDelegation>,
    accounts: &Vec<Option<[u8; 32]>>,
    instructions: &Vec<InnerInstruction>,
    slot: u64,
)
    ensures
        final(found)@ == old(found)@ + inner_delegations_made(accounts@, instructions@, slot),
{
    let ghost before = found@;
    let mut i: usize = 0;
    assert(found@ =~= before + inner_delegations_made(accounts@, instructions@.take(0), slot));
    while i < instructions.len()
        invariant
            i <= instructions.len(),
            found@ == before + inner_delegations_made(
                accounts@,
                instructions@.take(i as int),
                slot,
            ),
        decreases instructions.len() - i,
    {
        match &instructions[i] {
            InnerInstruction::Compiled { program_id_index, accounts: ix_accounts, data } => {
                match decode_base58(data) {
                    Some(bytes) => {
                        match recover_delegation(
                            accounts,
                            *program_id_index,
                            ix_accounts,
                            &bytes,
                            slot,
                        ) {
                            Some(delegation) => {
                                found.push(delegation);
                            },
                            None => {},
                        }
                    },
                    None => {},
                }
            },
            InnerInstruction::Parsed => {},
        }
        i = i + 1;
        assert(instructions@.take(i as int).drop_last() =~= instructions@.take(i - 1));
        assert(found@ =~= before + inner_delegations_made(
            accounts@,
            instructions@.take(i as int),
            slot,
        ));
    }
    assert(instructions@.take(instructions@.len() as int) =~= instructions@);
}

/// Finds the delegations that a transaction made.
pub fn recover_delegations_from_transaction(
    message: &TransactionMessage,
    meta: &TransactionMeta,
    slot: u64,
) -> (r: Vec<RecoveredDelegation>)
    ensures
        r@ == transaction_delegations(message@, *meta, slot),
{
    let mut recovered: Vec<RecoveredDelegation> = Vec::new();
    if !meta.failed {
        let accounts = message_addresses(message, meta);
        append_delegations(&mut recovered, &accounts, message, slot);
        let ghost top = recovered@;
        let lists = &meta.inner_instructions;
        let mut k: usize = 0;
        assert(recovered@ =~= top + all_inner_delegations_made(accounts@, lists@.take(0), slot));
        while k < lists.len()
            invariant
                k <= lists.len(),
                recovered@ == top + all_inner_delegations_made(
                    accounts@,
                    lists@.take(k as int),
                    slot,
                ),
            decreases lists.len() - k,
        {
            append_inner_delegations(&mut recovered, &accounts, &lists[k], slot);
            k = k + 1;
            assert(lists@.take(k as int).drop_last() =~= lists@.take(k - 1));
            assert(recovered@ =~= top + all_inner_delegations_made(
                accounts@,
                lists@.take(k as int),
                slot,
            ));
        }
        assert(lists@.take(lists@.len() as int) =~= lists@);
        assert(recovered@ =~= transaction_delegations(message@, *meta, slot));
    }
    recovered
}

/// Finds the delegations that the successful transactions of a block made.
pub fn recover_delegations_from_block(transactions: &Vec<BlockTransaction>, slot: u64) -> (r: Vec<
    RecoveredDelegation,
>)
    ensures
        r@ == block_delegations(transactions@, slot),
{
    let mut recovered: Vec<RecoveredDelegation> = Vec::new();
    let mut i: usize = 0;
    while i < transactions.len()
        invariant
            i <= transactions.len(),
            recovered@ == block_delegations(transactions@.take(i as int), slot),
        decreases transactions.len() - i,
    {
        match (&transactions[i].meta, transactions[i].transaction.decode()) {
            (Some(meta), Some(message)) => {
                let mut found = recover_delegations_from_transaction(&message, meta, slot);
                recovered.append(&mut found);
            },
            _ => {},
        }
        i = i + 1;
        assert(transactions@.take(i as int).drop_last() =~= transactions@.take(i - 1));
    }
    assert(transactions@.take(transactions@.len() as int) =~= transactions@);
    recovered
}

/// Accounts that a source is asked for: those of these owners that pass the filter.
#[derive(Debug)]
pub struct AccountsFilter {
    pub name: &'static str,
    pub owner: Vec<String>,
    pub filter: BytesFilter,
}

impl AccountsFilter {
    /// Whether the filter is for the accounts of the delegation program that begin with a
    /// discriminator.
    pub open spec fn asks_for(&self, name: Seq<char>, discriminator: u8) -> bool {
        &&& self.name@ == name
        &&& self.owner@.len() == 1
        &&& self.owner@[0]@ == address_text(DLP_PROGRAM_ID@)
        &&& self.filter.offset == 0
        &&& self.filter.bytes@ == seq![discriminator, 0u8, 0u8, 0u8, 0u8, 0u8, 0u8, 0u8]
    }
}

/// What a source is asked for.
#[derive(Debug)]
pub struct SubscribeRequest {
    pub accounts: Vec<AccountsFilter>,
    pub transactions_name: &'static str,
    /// Transactions that name one of these accounts are asked for.
    pub account_include: Vec<String>,
    pub slots_name: &'static str,
    /// Whether only slots of the commitment below are asked for.
    pub filter_by_commitment: bool,
    /// Whether all that is asked for is confirmed.
    pub confirmed: bool,
    pub from_slot: Option<u64>,
}

fn dlp_accounts_filter(name: &'static str, discriminator: u8) -> (r: AccountsFilter)
    ensures
        r.asks_for(name@, discriminator),
{
    let mut owner: Vec<String> = Vec::new();
    owner.push(address_to_text(&Pubkey { bytes: DLP_PROGRAM_ID }));
    AccountsFilter { name, owner, filter: discriminator_filter(discriminator) }
}

impl RecordStream {
    /// Asks for the delegation records, the undelegation requests and the transactions of the
    /// delegation program, and for the slots, all confirmed.
    pub fn subscribe_request(from_slot: Option<u64>) -> (r: SubscribeRequest)
        ensures
            r.accounts@.len() == 2,
            r.accounts@[0].asks_for("delegations"@, DELEGATION_RECORD_DISCRIMINATOR),
            r.accounts@[1].asks_for("undelegation-requests"@, UNDELEGATION_REQUEST_DISCRIMINATOR),
            r.transactions_name@ == "delegation-instructions"@,
            r.account_include@.len() == 1,
            r.account_include@[0]@ == address_text(DLP_PROGRAM_ID@),
            r.slots_name@ == "slots"@,
            r.filter_by_commitment,
            r.confirmed,
            r.from_slot == from_slot,
    {
        let mut accounts: Vec<AccountsFilter> = Vec::new();
        accounts.push(dlp_accounts_filter("delegations", DELEGATION_RECORD_DISCRIMINATOR));
        accounts.push(
            dlp_accounts_filter("undelegation-requests", UNDELEGATION_REQUEST_DISCRIMINATOR),
        );
        let mut account_include: Vec<String> = Vec::new();
        account_include.push(address_to_text(&Pubkey { bytes: DLP_PROGRAM_ID }));
        SubscribeRequest {
            accounts,
            transactions_name: "delegation-instructions",
            account_include,
            slots_name: "slots",
            filter_by_commitment: true,
            confirmed: true,
            from_slot,
        }
    }
}

} // verus!
