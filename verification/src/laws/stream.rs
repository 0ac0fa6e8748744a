//! What holds of the stream of delegations and of what blocks tell of them.
use vstd::prelude::*;
use crate::bytes::read_u64;
use crate::chainlink::record_stream::{
    all_inner_delegations_made, are_addresses, block_delegations, delegation_made,
    delegations_made, dlp_instruction, dlp_instructions, dlp_instructions_of_all,
    handle_account_update, handle_transaction_update, inner_delegation_made,
    inner_delegations_made, is_key, lemma_addresses_unique, lemma_key_unique,
    parse_dlp_instruction, parse_undelegation_request, payload_permit, reconnect_from_slot,
    recover_delegation, recover_delegations_from_block, recover_delegations_from_transaction,
    sanitize_account_update_payload, transaction_addresses, undelegation_request_event, update_of,
    BlockTransaction, CompiledInstruction, DlpInstruction, EncodedTransaction, InnerInstruction,
    PayloadPermit, Reconnect, RecordStream, RecordStreamError, RecordStreamUpdate,
    RecoveredDelegation, ReplayRecoveryRange, ReplayRecoveryState, StartupBuffer, StreamAccount,
    StreamEvent, StreamStep, StreamTransaction, SubscribeRequest, TransactionMessage,
    TransactionMeta,
};
use crate::delegation_record::{
    DELEGATION_RECORD_DISCRIMINATOR, UNDELEGATION_REQUEST_DISCRIMINATOR,
};
use crate::laws::delegation::is_marked;
use crate::lists::{law_picked_in_order, lemma_picked_contains, picked};
use crate::pda::undelegation_request_address;
use crate::program_ids::DLP_PROGRAM_ID;
use crate::pubkey::Pubkey;
use crate::text::{address_in_text, address_text, base58_bytes};

verus! {

/// What an instruction tells the delegation program depends on the first eight bytes of its
/// data, and on nothing that follows them.
pub proof fn law_arguments_do_not_hide_instructions(
    accounts: Vec<Option<[u8; 32]>>,
    program: usize,
    ix_accounts: Vec<u8>,
    a: Vec<u8>,
    b: Vec<u8>,
    x: Option<DlpInstruction>,
    y: Option<DlpInstruction>,
)
    requires
        call_ensures(parse_dlp_instruction, (&accounts, program, &ix_accounts, &a), x),
        call_ensures(parse_dlp_instruction, (&accounts, program, &ix_accounts, &b), y),
        a@.len() >= 8,
        b@.len() >= 8,
        a@.take(8) == b@.take(8),
    ensures
        x == y,
{
    assert(forall|i: int| 0 <= i < 8 ==> a@.take(8)[i] == a@[i] && b@.take(8)[i] == b@[i]);
    assert(a@[0] == b@[0] && a@[1] == b@[1] && a@[2] == b@[2] && a@[3] == b@[3] && a@[4] == b@[4]
        && a@[5] == b@[5] && a@[6] == b@[6] && a@[7] == b@[7]);
}

/// The account that an instruction names at a place of its list.
pub open spec fn names(
    accounts: Seq<Option<[u8; 32]>>,
    ix_accounts: Seq<u8>,
    place: int,
    key: [u8; 32],
) -> bool {
    &&& place < ix_accounts.len()
    &&& ix_accounts[place] < accounts.len()
    &&& accounts[ix_accounts[place] as int] == Some(key)
}

proof fn lemma_mark_is_number(data: Seq<u8>, mark: u8)
    requires
        data.len() >= 8,
    ensures
        is_marked(data, mark) <==> crate::bytes::le_value(data, 0) == mark,
{
    let head = data.take(8);
    let wanted = seq![mark, 0u8, 0u8, 0u8, 0u8, 0u8, 0u8, 0u8];
    assert(head[0] == data[0] && head[1] == data[1] && head[2] == data[2] && head[3] == data[3]
        && head[4] == data[4] && head[5] == data[5] && head[6] == data[6] && head[7] == data[7]);
    assert(wanted[0] == mark && wanted[1] == 0 && wanted[2] == 0 && wanted[3] == 0 && wanted[4]
        == 0 && wanted[5] == 0 && wanted[6] == 0 && wanted[7] == 0);
    if crate::bytes::le_value(data, 0) == mark {
        assert(data[0] == mark && data[1] == 0 && data[2] == 0 && data[3] == 0 && data[4] == 0
            && data[5] == 0 && data[6] == 0 && data[7] == 0);
        assert(head =~= wanted);
    }
}

/// An instruction of the delegation program that delegates, with or without actions, is seen
/// whenever it names the account and the record, whatever its arguments are.
pub proof fn law_delegations_are_seen(
    accounts: Vec<Option<[u8; 32]>>,
    program: usize,
    ix_accounts: Vec<u8>,
    data: Vec<u8>,
    delegated_account: [u8; 32],
    record: [u8; 32],
    r: Option<DlpInstruction>,
)
    requires
        call_ensures(parse_dlp_instruction, (&accounts, program, &ix_accounts, &data), r),
        program < accounts@.len() && accounts@[program as int] == Some(DLP_PROGRAM_ID),
        is_marked(data@, 0) || is_marked(data@, 19),
        names(accounts@, ix_accounts@, 1, delegated_account),
        names(accounts@, ix_accounts@, 4, record),
    ensures
        r == Some(DlpInstruction::Delegate { delegated_account, record }),
{
    lemma_mark_is_number(data@, 0);
    lemma_mark_is_number(data@, 19);
}

/// An instruction of the delegation program that gives an account back is seen whenever it
/// names the record.
pub proof fn law_undelegations_are_seen(
    accounts: Vec<Option<[u8; 32]>>,
    program: usize,
    ix_accounts: Vec<u8>,
    data: Vec<u8>,
    record: [u8; 32],
    r: Option<DlpInstruction>,
)
    requires
        call_ensures(parse_dlp_instruction, (&accounts, program, &ix_accounts, &data), r),
        program < accounts@.len() && accounts@[program as int] == Some(DLP_PROGRAM_ID),
        is_marked(data@, 3),
        names(accounts@, ix_accounts@, 6, record),
    ensures
        r == Some(DlpInstruction::Undelegate { record }),
{
    lemma_mark_is_number(data@, 3);
}

/// Nothing else is taken for a delegation or an undelegation.
pub proof fn law_other_instructions_are_not_seen(
    accounts: Vec<Option<[u8; 32]>>,
    program: usize,
    ix_accounts: Vec<u8>,
    data: Vec<u8>,
    r: Option<DlpInstruction>,
)
    requires
        call_ensures(parse_dlp_instruction, (&accounts, program, &ix_accounts, &data), r),
        r is Some,
    ensures
        program < accounts@.len() && accounts@[program as int] == Some(DLP_PROGRAM_ID),
        match r->0 {
            DlpInstruction::Delegate { delegated_account, record } => {
                &&& is_marked(data@, 0) || is_marked(data@, 19)
                &&& names(accounts@, ix_accounts@, 1, delegated_account)
                &&& names(accounts@, ix_accounts@, 4, record)
            },
            DlpInstruction::Undelegate { record } => {
                &&& is_marked(data@, 3)
                &&& names(accounts@, ix_accounts@, 6, record)
            },
        },
{
    lemma_mark_is_number(data@, 0);
    lemma_mark_is_number(data@, 19);
    lemma_mark_is_number(data@, 3);
}

/// A delegation is found in a block exactly if the stream would have told it.
pub proof fn law_blocks_and_the_stream_agree(
    accounts: Vec<Option<[u8; 32]>>,
    program: usize,
    ix_accounts: Vec<u8>,
    data: Vec<u8>,
    slot: u64,
    told: Option<DlpInstruction>,
    r: Option<RecoveredDelegation>,
)
    requires
        call_ensures(parse_dlp_instruction, (&accounts, program, &ix_accounts, &data), told),
        call_ensures(recover_delegation, (&accounts, program, &ix_accounts, &data, slot), r),
    ensures
        r matches Some(found) ==> found.slot == slot && told == Some(
            DlpInstruction::Delegate {
                delegated_account: found.delegated_account.bytes,
                record: found.record.bytes,
            },
        ),
        told matches Some(DlpInstruction::Delegate { .. }) ==> r is Some,
{
}

/// The addresses that the instructions of a transaction refer to by place: its own, then the
/// looked-up ones, the writable before the others.
pub open spec fn lists_addresses(
    transaction: StreamTransaction,
    accounts: Seq<Option<[u8; 32]>>,
) -> bool {
    let keys = transaction.account_keys@ + transaction.loaded_writable_addresses@
        + transaction.loaded_readonly_addresses@;
    &&& accounts.len() == keys.len()
    &&& forall|i: int|
        0 <= i < keys.len() ==> match #[trigger] accounts[i] {
            Some(key) => key@ == keys[i]@,
            None => keys[i]@.len() != 32,
        }
}

proof fn lemma_listed(transaction: StreamTransaction, accounts: Seq<Option<[u8; 32]>>)
    requires
        lists_addresses(transaction, accounts),
    ensures
        transaction.addresses() == accounts,
{
    let keys = transaction.account_keys@ + transaction.loaded_writable_addresses@
        + transaction.loaded_readonly_addresses@;
    let bytes = transaction.address_bytes();
    assert forall|i: int| 0 <= i < keys.len() implies #[trigger] transaction.addresses()[i]
        == accounts[i] by {
        assert(bytes[i] == keys[i]@);
        assert(is_key(accounts[i], bytes[i]));
        lemma_key_unique(
            choose|key: Option<[u8; 32]>| is_key(key, bytes[i]),
            accounts[i],
            bytes[i],
        );
    }
    assert(transaction.addresses() =~= accounts);
}

spec fn pick_told(accounts: Seq<Option<[u8; 32]>>) -> spec_fn(CompiledInstruction) -> Option<
    DlpInstruction,
> {
    |ix: CompiledInstruction|
        dlp_instruction(accounts, ix.program_id_index as int, ix.accounts@, ix.data@)
}

proof fn lemma_told_is_picked(
    accounts: Seq<Option<[u8; 32]>>,
    instructions: Seq<CompiledInstruction>,
)
    ensures
        dlp_instructions(accounts, instructions) == picked(instructions, pick_told(accounts)),
    decreases instructions.len(),
{
    if instructions.len() > 0 {
        lemma_told_is_picked(accounts, instructions.drop_last());
    }
}

proof fn lemma_told_by_all(
    accounts: Seq<Option<[u8; 32]>>,
    lists: Seq<Vec<CompiledInstruction>>,
    instruction: DlpInstruction,
)
    ensures
        dlp_instructions_of_all(accounts, lists).contains(instruction) <==> exists|k: int|
            0 <= k < lists.len() && dlp_instructions(accounts, (#[trigger] lists[k])@).contains(
                instruction,
            ),
    decreases lists.len(),
{
    if lists.len() > 0 {
        let short = lists.drop_last();
        lemma_told_by_all(accounts, short, instruction);
        let front = dlp_instructions_of_all(accounts, short);
        let back = dlp_instructions(accounts, lists.last()@);
        let all = front + back;
        if all.contains(instruction) {
            let i = choose|i: int| 0 <= i < all.len() && all[i] == instruction;
            if i < front.len() {
                assert(front[i] == instruction);
                let k = choose|k: int|
                    0 <= k < short.len() && dlp_instructions(
                        accounts,
                        (#[trigger] short[k])@,
                    ).contains(instruction);
                assert(lists[k] == short[k]);
            } else {
                assert(back[i - front.len()] == instruction);
                assert(lists[lists.len() - 1] == lists.last());
            }
        }
        if exists|k: int|
            0 <= k < lists.len() && dlp_instructions(accounts, (#[trigger] lists[k])@).contains(
                instruction,
            ) {
            let k = choose|k: int|
                0 <= k < lists.len() && dlp_instructions(accounts, (#[trigger] lists[k])@).contains(
                    instruction,
                );
            if k < short.len() {
                assert(short[k] == lists[k]);
                assert(front.contains(instruction));
                let i = choose|i: int| 0 <= i < front.len() && front[i] == instruction;
                assert(all[i] == instruction);
            } else {
                let i = choose|i: int| 0 <= i < back.len() && back[i] == instruction;
                assert(all[front.len() + i] == instruction);
            }
        }
    }
}

proof fn lemma_told_is_sent(
    transaction: StreamTransaction,
    slot: u64,
    instruction: DlpInstruction,
    sent: Seq<RecordStreamUpdate>,
)
    requires
        sent == transaction.told().map_values(|told: DlpInstruction| update_of(told, slot)),
    ensures
        transaction.told().contains(instruction) ==> sent.contains(update_of(instruction, slot)),
{
    if transaction.told().contains(instruction) {
        let i = choose|i: int|
            0 <= i < transaction.told().len() && transaction.told()[i] == instruction;
        assert(sent[i] == update_of(instruction, slot));
    }
}

/// A transaction that failed tells nothing.
pub proof fn law_failed_transactions_tell_nothing(
    transaction: StreamTransaction,
    slot: u64,
    r: Vec<RecordStreamUpdate>,
)
    requires
        call_ensures(handle_transaction_update, (Some(transaction), slot), r),
        transaction.failed,
    ensures
        r@.len() == 0,
{
}

/// Every delegation and every undelegation of a transaction that did not fail is told, with the
/// slot of the transaction.
pub proof fn law_instructions_are_told(
    transaction: StreamTransaction,
    slot: u64,
    accounts: Vec<Option<[u8; 32]>>,
    i: int,
    told: DlpInstruction,
    r: Vec<RecordStreamUpdate>,
)
    requires
        call_ensures(handle_transaction_update, (Some(transaction), slot), r),
        !transaction.failed,
        lists_addresses(transaction, accounts@),
        0 <= i < transaction.instructions@.len(),
        call_ensures(
            parse_dlp_instruction,
            (
                &accounts,
                transaction.instructions@[i].program_id_index,
                &transaction.instructions@[i].accounts,
                &transaction.instructions@[i].data,
            ),
            Some(told),
        ),
    ensures
        told matches DlpInstruction::Delegate { delegated_account, record } ==> r@.contains(
            RecordStreamUpdate::DelegationObserved { delegated_account, record, slot },
        ),
        told matches DlpInstruction::Undelegate { record } ==> r@.contains(
            RecordStreamUpdate::RecordUndelegated { record, slot },
        ),
{
    lemma_listed(transaction, accounts@);
    lemma_told_is_picked(accounts@, transaction.instructions@);
    lemma_picked_contains(transaction.instructions@, pick_told(accounts@), told);
    let front = dlp_instructions(accounts@, transaction.instructions@);
    assert(front.contains(told));
    let k = choose|k: int| 0 <= k < front.len() && front[k] == told;
    assert(transaction.told()[k] == told);
    lemma_told_is_sent(transaction, slot, told, r@);
}

/// So is every one that another instruction made.
pub proof fn law_inner_instructions_are_told(
    transaction: StreamTransaction,
    slot: u64,
    accounts: Vec<Option<[u8; 32]>>,
    k: int,
    i: int,
    told: DlpInstruction,
    r: Vec<RecordStreamUpdate>,
)
    requires
        call_ensures(handle_transaction_update, (Some(transaction), slot), r),
        !transaction.failed,
        lists_addresses(transaction, accounts@),
        0 <= k < transaction.inner_instructions@.len(),
        0 <= i < transaction.inner_instructions@[k]@.len(),
        call_ensures(
            parse_dlp_instruction,
            (
                &accounts,
                transaction.inner_instructions@[k]@[i].program_id_index,
                &transaction.inner_instructions@[k]@[i].accounts,
                &transaction.inner_instructions@[k]@[i].data,
            ),
            Some(told),
        ),
    ensures
        told matches DlpInstruction::Delegate { delegated_account, record } ==> r@.contains(
            RecordStreamUpdate::DelegationObserved { delegated_account, record, slot },
        ),
        told matches DlpInstruction::Undelegate { record } ==> r@.contains(
            RecordStreamUpdate::RecordUndelegated { record, slot },
        ),
{
    lemma_listed(transaction, accounts@);
    let list = transaction.inner_instructions@[k]@;
    lemma_told_is_picked(accounts@, list);
    lemma_picked_contains(list, pick_told(accounts@), told);
    assert(dlp_instructions(accounts@, list).contains(told));
    lemma_told_by_all(accounts@, transaction.inner_instructions@, told);
    let front = dlp_instructions(accounts@, transaction.instructions@);
    let back = dlp_instructions_of_all(accounts@, transaction.inner_instructions@);
    let n = choose|n: int| 0 <= n < back.len() && back[n] == told;
    assert(transaction.told()[front.len() + n] == told);
    lemma_told_is_sent(transaction, slot, told, r@);
}

/// A transaction tells nothing but what its instructions tell.
pub proof fn law_nothing_else_is_told(
    transaction: StreamTransaction,
    slot: u64,
    accounts: Vec<Option<[u8; 32]>>,
    n: int,
    r: Vec<RecordStreamUpdate>,
)
    requires
        call_ensures(handle_transaction_update, (Some(transaction), slot), r),
        lists_addresses(transaction, accounts@),
        0 <= n < r@.len(),
    ensures
        exists|ix: CompiledInstruction, told: DlpInstruction|
            {
                &&& transaction.instructions@.contains(ix) || exists|k: int|
                    0 <= k < transaction.inner_instructions@.len() && (
                    #[trigger] transaction.inner_instructions@[k])@.contains(ix)
                &&& #[trigger] dlp_instruction(
                    accounts@,
                    ix.program_id_index as int,
                    ix.accounts@,
                    ix.data@,
                ) == Some(told)
                &&& r@[n] == #[trigger] update_of(told, slot)
            },
{
    lemma_listed(transaction, accounts@);
    let told = transaction.told()[n];
    assert(r@[n] == update_of(told, slot));
    let front = dlp_instructions(accounts@, transaction.instructions@);
    let back = dlp_instructions_of_all(accounts@, transaction.inner_instructions@);
    if n < front.len() {
        assert(front.contains(told));
        lemma_told_is_picked(accounts@, transaction.instructions@);
        lemma_picked_contains(transaction.instructions@, pick_told(accounts@), told);
        let i = choose|i: int|
            0 <= i < transaction.instructions@.len() && pick_told(accounts@)(
                #[trigger] transaction.instructions@[i],
            ) == Some(told);
        let ix = transaction.instructions@[i];
        assert(transaction.instructions@.contains(ix));
        assert(dlp_instruction(accounts@, ix.program_id_index as int, ix.accounts@, ix.data@)
            == Some(told));
    } else {
        assert(back[n - front.len()] == told);
        assert(back.contains(told));
        lemma_told_by_all(accounts@, transaction.inner_instructions@, told);
        let k = choose|k: int|
            0 <= k < transaction.inner_instructions@.len() && dlp_instructions(
                accounts@,
                (#[trigger] transaction.inner_instructions@[k])@,
            ).contains(told);
        let list = transaction.inner_instructions@[k]@;
        lemma_told_is_picked(accounts@, list);
        lemma_picked_contains(list, pick_told(accounts@), told);
        let i = choose|i: int|
            0 <= i < list.len() && pick_told(accounts@)(#[trigger] list[i]) == Some(told);
        let ix = list[i];
        assert(transaction.inner_instructions@[k]@.contains(ix));
        assert(dlp_instruction(accounts@, ix.program_id_index as int, ix.accounts@, ix.data@)
            == Some(told));
    }
}

/// What a transaction tells comes in the order of its instructions, and what these made comes
/// after all of them.
pub proof fn law_instructions_are_told_in_order(
    transaction: StreamTransaction,
    part: StreamTransaction,
    slot: u64,
    accounts: Vec<Option<[u8; 32]>>,
    n: int,
    r: Vec<RecordStreamUpdate>,
    s: Vec<RecordStreamUpdate>,
)
    requires
        call_ensures(handle_transaction_update, (Some(transaction), slot), r),
        call_ensures(handle_transaction_update, (Some(part), slot), s),
        !transaction.failed && !part.failed,
        lists_addresses(transaction, accounts@),
        lists_addresses(part, accounts@),
        0 <= n <= transaction.instructions@.len(),
        part.instructions@ == transaction.instructions@.take(n),
        part.inner_instructions@.len() == 0,
    ensures
        s@.len() <= r@.len(),
        s@ == r@.take(s@.len() as int),
{
    lemma_listed(transaction, accounts@);
    lemma_listed(part, accounts@);
    let all = transaction.instructions@;
    lemma_told_is_picked(accounts@, all);
    lemma_told_is_picked(accounts@, all.take(n));
    law_picked_in_order(all.take(n), all.skip(n), pick_told(accounts@));
    assert(all.take(n) + all.skip(n) =~= all);
    assert(part.told() =~= picked(all.take(n), pick_told(accounts@)));
    assert(s@ =~= r@.take(s@.len() as int));
}

/// An account update is told as a delegation record unless it is marked as a request, as a
/// request if it is a whole one and kept where it belongs, and not at all otherwise.
pub proof fn law_account_updates_are_told(
    account: StreamAccount,
    slot: u64,
    r: Option<RecordStreamUpdate>,
)
    requires
        call_ensures(handle_account_update, (Some(account), slot), r),
    ensures
        account.pubkey@.len() != 32 ==> r is None,
        account.pubkey@.len() == 32 && !is_marked(account.data@, 104) ==> (r matches Some(
            RecordStreamUpdate::Record { record, data, slot: at },
        ) && record@ == account.pubkey@ && data@ == account.data@ && at == slot),
        account.pubkey@.len() == 32 && is_marked(account.data@, 104) ==> (r is Some
            <==> account.data@.len() >= 48 && undelegation_request_address(
            account.data@.subrange(8, 40),
        ) == account.pubkey@),
        r is Some && is_marked(account.data@, 104) ==> (r matches Some(
            RecordStreamUpdate::UndelegationRequested {
                request_pda,
                delegated_account,
                expires_at_slot,
                slot: at,
            },
        ) && request_pda@ == account.pubkey@ && delegated_account@ == account.data@.subrange(
            8,
            40,
        ) && at == slot && expires_at_slot == account.data@[40] + 0x100 * account.data@[41]
            + 0x1_0000 * account.data@[42] + 0x100_0000 * account.data@[43] + 0x1_0000_0000
            * account.data@[44] + 0x100_0000_0000 * account.data@[45] + 0x1_0000_0000_0000
            * account.data@[46] + 0x100_0000_0000_0000 * account.data@[47]),
{
    crate::laws::delegation::lemma_marked(account.data@, 104);
}

/// An account update without an account tells nothing.
pub proof fn law_empty_updates_tell_nothing(
    slot: u64,
    r: Option<RecordStreamUpdate>,
    s: Vec<RecordStreamUpdate>,
)
    requires
        call_ensures(handle_account_update, (None::<StreamAccount>, slot), r),
        call_ensures(handle_transaction_update, (None::<StreamTransaction>, slot), s),
    ensures
        r is None,
        s@.len() == 0,
{
}

/// A request is told exactly if it is kept where requests for its account belong, and as it is.
pub proof fn law_requests_are_told(
    pubkey: [u8; 32],
    delegated_account: [u8; 32],
    expires_at_slot: u64,
    canonical: Pubkey,
    slot: u64,
    r: Option<RecordStreamUpdate>,
)
    requires
        call_ensures(
            undelegation_request_event,
            (pubkey, delegated_account, expires_at_slot, &canonical, slot),
            r,
        ),
    ensures
        r is Some <==> canonical.bytes == pubkey,
        r is Some ==> r == Some(
            RecordStreamUpdate::UndelegationRequested {
                request_pda: pubkey,
                delegated_account,
                expires_at_slot,
                slot,
            },
        ),
{
}

/// A request names the account behind its mark, and then the slot of its expiry.
pub proof fn law_requests_are_parsed(data: &[u8], r: Option<([u8; 32], u64)>)
    requires
        call_ensures(parse_undelegation_request, (data,), r),
    ensures
        r is Some <==> data@.len() >= 48 && is_marked(data@, 104),
        r matches Some((delegated_account, _)) ==> delegated_account@ == data@.subrange(8, 40),
        forall|expires_at_slot: u64|
            r is Some && #[trigger] call_ensures(read_u64, (data, 40usize), expires_at_slot) ==> (
            r->0).1 == expires_at_slot,
{
    crate::laws::delegation::lemma_marked(data@, 104);
}

/// An event is taken as it is unless it carries more than an account can hold; then it keeps
/// everything but that.
pub proof fn law_events_are_kept(event: StreamEvent, r: (StreamEvent, usize))
    requires
        call_ensures(sanitize_account_update_payload, (event,), r),
    ensures
        event matches StreamEvent::Account { account: Some(account), slot } ==> {
            &&& account.data@.len() <= 10_485_760 ==> r.0 == event && r.1 == account.data@.len()
            &&& account.data@.len() > 10_485_760 ==> {
                &&& r.1 == 0
                &&& r.0 matches StreamEvent::Account { account: Some(cleaned), slot: at }
                &&& cleaned.pubkey == account.pubkey
                &&& cleaned.data@.len() == 0
                &&& at == slot
            }
        },
        !(event matches StreamEvent::Account { account: Some(_), .. }) ==> r.0 == event && r.1 == 0,
{
}

/// An update takes as much of the budget as its record has bytes.
pub proof fn law_permits_are_for_all_bytes(update: RecordStreamUpdate, r: PayloadPermit)
    requires
        call_ensures(payload_permit, (&update,), r),
    ensures
        match update {
            RecordStreamUpdate::Record { data, .. } => match r {
                PayloadPermit::Free => data@.len() == 0,
                PayloadPermit::Bytes(bytes) => bytes == data@.len() && bytes > 0,
                PayloadPermit::TooLarge => data@.len() > 0xffff_ffff,
            },
            _ => r == PayloadPermit::Free,
        },
{
}

/// A confirmed slot beyond the last barrier is told, becomes the barrier, and counts as
/// complete; no other slot is told.
pub proof fn law_confirmed_slots_become_barriers(
    stream: &mut RecordStream,
    slot: u64,
    confirmed: bool,
    r: StreamStep,
)
    requires
        call_ensures(
            RecordStream::handle_update,
            (stream, StreamEvent::Slot { slot, confirmed }),
            r,
        ),
    ensures
        r.proceed,
        confirmed && slot > old(stream).watermark ==> {
            &&& r.deliver@ == seq![RecordStreamUpdate::SlotAdvanced(slot)]
            &&& final(stream).watermark == slot
            &&& final(stream).last_confirmed_slot >= slot
        },
        !confirmed || slot <= old(stream).watermark ==> {
            &&& r.deliver@.len() == 0
            &&& final(stream).watermark == old(stream).watermark
            &&& final(stream).last_confirmed_slot == old(stream).last_confirmed_slot
        },
        !confirmed ==> *final(stream) == *old(stream),
        final(stream).slot >= old(stream).slot,
        final(stream).slot == old(stream).slot || final(stream).slot == slot,
        confirmed ==> final(stream).slot >= slot,
        final(stream).last_confirmed_slot >= old(stream).last_confirmed_slot,
        final(stream).last_confirmed_slot == old(stream).last_confirmed_slot
            || final(stream).last_confirmed_slot == slot,
        final(stream).continuity_epoch == old(stream).continuity_epoch,
{
}

/// An event behind the last barrier interrupts the stream before it is told; it sets the replay
/// back to its slot, and nothing from there on counts as complete. Any other event leaves the
/// barrier and what is complete as they are.
pub proof fn law_late_events_interrupt(
    stream: &mut RecordStream,
    transaction: Option<StreamTransaction>,
    slot: u64,
    r: StreamStep,
    told: Vec<RecordStreamUpdate>,
)
    requires
        call_ensures(
            RecordStream::handle_update,
            (stream, StreamEvent::Transaction { transaction, slot }),
            r,
        ),
        call_ensures(handle_transaction_update, (transaction, slot), told),
    ensures
        0 < old(stream).watermark && slot <= old(stream).watermark ==> {
            &&& !r.proceed
            &&& r.deliver@ == seq![RecordStreamUpdate::SyncInterrupted] + told@
            &&& final(stream).watermark == 0
            &&& final(stream).slot == slot
            &&& final(stream).last_confirmed_slot < slot || final(stream).last_confirmed_slot == 0
            &&& final(stream).last_confirmed_slot <= old(stream).last_confirmed_slot
            &&& final(stream).continuity_epoch != old(stream).continuity_epoch
        },
        old(stream).watermark == 0 || slot > old(stream).watermark ==> {
            &&& r.proceed
            &&& r.deliver@ == told@
            &&& final(stream).watermark == old(stream).watermark
            &&& final(stream).last_confirmed_slot == old(stream).last_confirmed_slot
            &&& final(stream).continuity_epoch == old(stream).continuity_epoch
            &&& final(stream).slot >= slot && final(stream).slot >= old(stream).slot
            &&& final(stream).slot == slot || final(stream).slot == old(stream).slot
        },
{
    assert(seq![RecordStreamUpdate::SyncInterrupted] + told@ =~= r.deliver@ || told@
        =~= r.deliver@);
}

/// The same holds of account updates: each is told, after the interruption if there is one.
pub proof fn law_late_accounts_interrupt(
    stream: &mut RecordStream,
    account: StreamAccount,
    slot: u64,
    r: StreamStep,
)
    requires
        call_ensures(
            RecordStream::handle_update,
            (stream, StreamEvent::Account { account: Some(account), slot }),
            r,
        ),
        account.data@.len() <= 10_485_760,
    ensures
        0 < old(stream).watermark && slot <= old(stream).watermark ==> {
            &&& !r.proceed
            &&& r.deliver@.len() > 0
            &&& r.deliver@[0] == RecordStreamUpdate::SyncInterrupted
            &&& final(stream).watermark == 0
            &&& final(stream).slot == slot
            &&& final(stream).last_confirmed_slot < slot || final(stream).last_confirmed_slot == 0
            &&& final(stream).last_confirmed_slot <= old(stream).last_confirmed_slot
        },
        old(stream).watermark == 0 || slot > old(stream).watermark ==> {
            &&& r.proceed
            &&& r.deliver@.len() <= 1
            &&& final(stream).watermark == old(stream).watermark
            &&& final(stream).last_confirmed_slot == old(stream).last_confirmed_slot
            &&& final(stream).slot >= slot && final(stream).slot >= old(stream).slot
        },
        account.pubkey@.len() == 32 && !is_marked(account.data@, 104) ==> r.deliver@.len() > 0,
        account.pubkey@.len() == 32 && !is_marked(account.data@, 104) ==> (r.deliver@.last()
            matches RecordStreamUpdate::Record { record, data, slot: at } && record@
            == account.pubkey@ && data@ == account.data@ && at == slot),
{
    crate::laws::delegation::lemma_marked(account.data@, 104);
}

/// A failure of the source interrupts the stream and is told; it moves no slot.
pub proof fn law_failures_interrupt(stream: &mut RecordStream, r: StreamStep)
    requires
        call_ensures(RecordStream::handle_update, (stream, StreamEvent::Error), r),
    ensures
        !r.proceed,
        r.deliver@ == seq![RecordStreamUpdate::SyncInterrupted],
        final(stream).watermark == 0,
        final(stream).slot == old(stream).slot,
        final(stream).last_confirmed_slot == old(stream).last_confirmed_slot,
        final(stream).continuity_epoch != old(stream).continuity_epoch,
{
}

/// Other events change nothing and tell nothing.
pub proof fn law_other_events_do_nothing(stream: &mut RecordStream, r: StreamStep)
    requires
        call_ensures(RecordStream::handle_update, (stream, StreamEvent::Other), r),
    ensures
        r.proceed,
        r.deliver@.len() == 0,
        *final(stream) == *old(stream),
{
}

/// Merged ranges have no slot before the first or after the last of both.
pub proof fn law_merged_ranges_are_tight(
    a: ReplayRecoveryRange,
    b: ReplayRecoveryRange,
    r: ReplayRecoveryRange,
)
    requires
        call_ensures(ReplayRecoveryRange::merged, (a, b), r),
    ensures
        r.after_slot <= a.after_slot && r.after_slot <= b.after_slot,
        r.after_slot == a.after_slot || r.after_slot == b.after_slot,
        r.through_slot >= a.through_slot && r.through_slot >= b.through_slot,
        r.through_slot == a.through_slot || r.through_slot == b.through_slot,
{
}

/// What was asked for stays asked for until it is handed out; asking for nothing changes
/// nothing.
pub proof fn law_requested_ranges_are_pending(
    state: &mut ReplayRecoveryState,
    range: ReplayRecoveryRange,
    notify: bool,
    slot: u64,
)
    requires
        call_ensures(ReplayRecoveryState::request, (state, range), notify),
    ensures
        notify <==> range.after_slot < range.through_slot,
        !notify ==> final(state).pending == old(state).pending,
        range.after_slot < slot <= range.through_slot ==> {
            &&& final(state).pending matches Some(pending)
            &&& pending.after_slot < slot <= pending.through_slot
        },
        old(state).pending matches Some(before) && before.after_slot < slot <= before.through_slot
            ==> {
            &&& final(state).pending matches Some(pending)
            &&& pending.after_slot < slot <= pending.through_slot
        },
        old(state).pending is None && notify ==> final(state).pending == Some(range),
        old(state).pending is Some && notify ==> {
            &&& final(state).pending matches Some(pending)
            &&& pending.after_slot == range.after_slot || pending.after_slot == (
            old(state).pending->0).after_slot
            &&& pending.through_slot == range.through_slot || pending.through_slot == (
            old(state).pending->0).through_slot
        },
{
}

/// What is pending is handed out once.
pub proof fn law_pending_ranges_are_handed_out_once(
    state: &mut ReplayRecoveryState,
    r: Option<ReplayRecoveryRange>,
)
    requires
        call_ensures(ReplayRecoveryState::take_pending, (state,), r),
    ensures
        r == old(state).pending,
        final(state).pending is None,
{
}

/// A replay begins a margin before the newest slot, never at slot 0 and never after what was
/// seen; once it failed too often there is none.
pub proof fn law_replays_overlap(slot: u64, replay_failures: usize, r: Option<u64>)
    requires
        call_ensures(reconnect_from_slot, (slot, replay_failures), r),
    ensures
        r is Some <==> replay_failures < 5,
        r matches Some(from) ==> {
            &&& from >= 1
            &&& slot >= 1 ==> from <= slot
            &&& slot > 33 ==> slot - from == 32
            &&& slot <= 33 ==> from == 1
        },
{
}

/// Each failure makes the next pause twice as long, up to a minute.
pub proof fn law_pauses_double(reconnect: &mut Reconnect, pause: u64)
    requires
        old(reconnect).delay_secs <= 60,
        call_ensures(Reconnect::failed, (reconnect,), pause),
    ensures
        pause == old(reconnect).delay_secs,
        final(reconnect).delay_secs <= 60,
        old(reconnect).delay_secs <= 30 ==> final(reconnect).delay_secs == 2
            * old(reconnect).delay_secs,
        old(reconnect).delay_secs > 30 ==> final(reconnect).delay_secs == 60,
        old(reconnect).replay_failures < usize::MAX ==> final(reconnect).replay_failures
            == old(reconnect).replay_failures + 1,
{
}

/// After a new connection no barrier holds. Without a replay, all that was not complete before
/// up to what is confirmed now has to be asked for; with one, nothing.
pub proof fn law_gaps_are_asked_for(
    stream: &mut RecordStream,
    from_slot: Option<u64>,
    confirmed_slot: u64,
    r: Option<ReplayRecoveryRange>,
)
    requires
        call_ensures(RecordStream::reconnected, (stream, from_slot, confirmed_slot), r),
    ensures
        final(stream).watermark == 0,
        final(stream).slot == old(stream).slot,
        final(stream).last_confirmed_slot == old(stream).last_confirmed_slot,
        r is None <==> from_slot is Some,
        r matches Some(range) ==> range.after_slot == old(stream).last_confirmed_slot
            && range.through_slot == confirmed_slot,
{
}

/// Events before the first confirmed slot of a connection are kept in their order.
pub proof fn law_early_events_are_kept(
    buffer: &mut StartupBuffer,
    event: StreamEvent,
    r: Result<Option<u64>, RecordStreamError>,
)
    requires
        old(buffer).wf(),
        call_ensures(StartupBuffer::push, (buffer, Some(Ok(event))), r),
        !(event matches StreamEvent::Account { account: Some(account), .. } && account.data@.len()
            > 10_485_760),
        r is Ok,
    ensures
        final(buffer).updates@ == old(buffer).updates@.push(event),
        event matches StreamEvent::Slot { slot, confirmed: true } ==> r == Ok::<
            _,
            RecordStreamError,
        >(Some(slot)),
        !(event matches StreamEvent::Slot { confirmed: true, .. }) ==> r == Ok::<
            _,
            RecordStreamError,
        >(None::<u64>),
{
}

/// A connection is of no use only if it ends, fails, or sends too much before the first
/// confirmed slot.
pub proof fn law_connections_are_given_a_chance(
    buffer: &mut StartupBuffer,
    item: Option<Result<StreamEvent, String>>,
    r: Result<Option<u64>, RecordStreamError>,
)
    requires
        old(buffer).wf(),
        call_ensures(StartupBuffer::push, (buffer, item), r),
    ensures
        item is None ==> r is Err,
        item matches Some(Err(_)) ==> r is Err,
        item is Some && item->0 is Ok && r is Err ==> old(buffer).updates@.len() >= 8191 || (
        item->0->Ok_0 matches StreamEvent::Account { account: Some(account), .. }
            && old(buffer).pending_payload_bytes + account.data@.len() > 67_108_864),
{
}

/// A transaction of a block that failed makes no delegation.
pub proof fn law_failed_transactions_delegate_nothing(
    message: TransactionMessage,
    meta: TransactionMeta,
    slot: u64,
    r: Vec<RecoveredDelegation>,
)
    requires
        call_ensures(recover_delegations_from_transaction, (&message, &meta, slot), r),
        meta.failed,
    ensures
        r@.len() == 0,
{
}

spec fn pick_made(accounts: Seq<Option<[u8; 32]>>, slot: u64) -> spec_fn(
    (int, Seq<u8>, Seq<u8>),
) -> Option<RecoveredDelegation> {
    |ix: (int, Seq<u8>, Seq<u8>)| delegation_made(accounts, ix.0, ix.1, ix.2, slot)
}

proof fn lemma_made_is_picked(
    accounts: Seq<Option<[u8; 32]>>,
    instructions: Seq<(int, Seq<u8>, Seq<u8>)>,
    slot: u64,
)
    ensures
        delegations_made(accounts, instructions, slot) == picked(
            instructions,
            pick_made(accounts, slot),
        ),
    decreases instructions.len(),
{
    if instructions.len() > 0 {
        lemma_made_is_picked(accounts, instructions.drop_last(), slot);
    }
}

/// The addresses that the instructions of a transaction of a block refer to by place: those of
/// its message, then the looked-up ones, the writable before the others.
pub open spec fn refers_to(
    message: TransactionMessage,
    meta: TransactionMeta,
    accounts: Seq<Option<[u8; 32]>>,
) -> bool {
    let own = message.static_account_keys@.len();
    let texts = meta.loaded_writable@ + meta.loaded_readonly@;
    &&& accounts.len() == own + texts.len()
    &&& forall|k: int|
        0 <= k < own ==> #[trigger] accounts[k] == Some(message.static_account_keys@[k].bytes)
    &&& forall|k: int|
        own <= k < accounts.len() ==> match #[trigger] accounts[k] {
            Some(key) => address_in_text(texts[k - own]@) == Some(key@),
            None => address_in_text(texts[k - own]@) is None,
        }
}

proof fn lemma_refers(
    message: TransactionMessage,
    meta: TransactionMeta,
    accounts: Seq<Option<[u8; 32]>>,
)
    requires
        refers_to(message, meta, accounts),
    ensures
        transaction_addresses(message@.0, meta) == accounts,
{
    let keys = message@.0;
    assert forall|k: int| 0 <= k < keys.len() implies {
        &&& #[trigger] accounts[k] is Some
        &&& accounts[k]->0@ == keys[k]
    } by {}
    assert(are_addresses(accounts, keys, meta));
    lemma_addresses_unique(keys, meta, transaction_addresses(keys, meta), accounts);
}

/// Every delegation that an instruction of a transaction made is found, unless the transaction
/// failed.
pub proof fn law_delegations_are_recovered(
    message: TransactionMessage,
    meta: TransactionMeta,
    slot: u64,
    accounts: Vec<Option<[u8; 32]>>,
    i: int,
    made: RecoveredDelegation,
    r: Vec<RecoveredDelegation>,
)
    requires
        call_ensures(recover_delegations_from_transaction, (&message, &meta, slot), r),
        !meta.failed,
        refers_to(message, meta, accounts@),
        0 <= i < message.instructions@.len(),
        call_ensures(
            recover_delegation,
            (
                &accounts,
                message.instructions@[i].program_id_index,
                &message.instructions@[i].accounts,
                &message.instructions@[i].data,
                slot,
            ),
            Some(made),
        ),
    ensures
        r@.contains(made),
{
    lemma_refers(message, meta, accounts@);
    lemma_made_is_picked(accounts@, message@.1, slot);
    assert(message@.1[i] == message.instructions@[i]@);
    assert(pick_made(accounts@, slot)(message@.1[i]) == Some(made));
    lemma_picked_contains(message@.1, pick_made(accounts@, slot), made);
    let front = delegations_made(accounts@, message@.1, slot);
    let n = choose|n: int| 0 <= n < front.len() && front[n] == made;
    assert(r@[n] == made);
}

spec fn pick_inner_made(accounts: Seq<Option<[u8; 32]>>, slot: u64) -> spec_fn(
    InnerInstruction,
) -> Option<RecoveredDelegation> {
    |ix: InnerInstruction| inner_delegation_made(accounts, ix, slot)
}

proof fn lemma_inner_made_is_picked(
    accounts: Seq<Option<[u8; 32]>>,
    instructions: Seq<InnerInstruction>,
    slot: u64,
)
    ensures
        inner_delegations_made(accounts, instructions, slot) == picked(
            instructions,
            pick_inner_made(accounts, slot),
        ),
    decreases instructions.len(),
{
    if instructions.len() > 0 {
        lemma_inner_made_is_picked(accounts, instructions.drop_last(), slot);
    }
}

proof fn lemma_made_by_all(
    accounts: Seq<Option<[u8; 32]>>,
    lists: Seq<Vec<InnerInstruction>>,
    slot: u64,
    k: int,
    made: RecoveredDelegation,
)
    requires
        0 <= k < lists.len(),
        inner_delegations_made(accounts, lists[k]@, slot).contains(made),
    ensures
        all_inner_delegations_made(accounts, lists, slot).contains(made),
    decreases lists.len(),
{
    let short = lists.drop_last();
    let front = all_inner_delegations_made(accounts, short, slot);
    let back = inner_delegations_made(accounts, lists.last()@, slot);
    let all = all_inner_delegations_made(accounts, lists, slot);
    if k < short.len() {
        assert(short[k] == lists[k]);
        lemma_made_by_all(accounts, short, slot, k, made);
        let n = choose|n: int| 0 <= n < front.len() && front[n] == made;
        assert(all[n] == made);
    } else {
        let n = choose|n: int| 0 <= n < back.len() && back[n] == made;
        assert(all[front.len() + n] == made);
    }
}

/// So is every one that another instruction made, if its data can be read.
pub proof fn law_inner_delegations_are_recovered(
    message: TransactionMessage,
    meta: TransactionMeta,
    slot: u64,
    accounts: Vec<Option<[u8; 32]>>,
    k: int,
    i: int,
    program: usize,
    ix_accounts: Vec<u8>,
    text: String,
    data: Vec<u8>,
    made: RecoveredDelegation,
    r: Vec<RecoveredDelegation>,
)
    requires
        call_ensures(recover_delegations_from_transaction, (&message, &meta, slot), r),
        !meta.failed,
        refers_to(message, meta, accounts@),
        0 <= k < meta.inner_instructions@.len(),
        0 <= i < meta.inner_instructions@[k]@.len(),
        meta.inner_instructions@[k]@[i] == (InnerInstruction::Compiled {
            program_id_index: program,
            accounts: ix_accounts,
            data: text,
        }),
        base58_bytes(text@) == Some(data@),
        call_ensures(
            recover_delegation,
            (&accounts, program, &ix_accounts, &data, slot),
            Some(made),
        ),
    ensures
        r@.contains(made),
{
    lemma_refers(message, meta, accounts@);
    let list = meta.inner_instructions@[k]@;
    lemma_inner_made_is_picked(accounts@, list, slot);
    assert(pick_inner_made(accounts@, slot)(list[i]) == Some(made));
    lemma_picked_contains(list, pick_inner_made(accounts@, slot), made);
    lemma_made_by_all(accounts@, meta.inner_instructions@, slot, k, made);
    let front = delegations_made(accounts@, message@.1, slot);
    let back = all_inner_delegations_made(accounts@, meta.inner_instructions@, slot);
    let n = choose|n: int| 0 <= n < back.len() && back[n] == made;
    assert(r@[front.len() + n] == made);
}

proof fn lemma_blocks_add_up(a: Seq<BlockTransaction>, b: Seq<BlockTransaction>, slot: u64)
    ensures
        block_delegations(a + b, slot)
            == block_delegations(a, slot)
            + block_delegations(b, slot),
    decreases b.len(),
{
    let all = block_delegations(a + b, slot);
    let front = block_delegations(a, slot);
    let back = block_delegations(b, slot);
    if b.len() == 0 {
        assert(a + b =~= a);
        assert(all =~= front + back);
    } else {
        assert((a + b).drop_last() =~= a + b.drop_last());
        lemma_blocks_add_up(a, b.drop_last(), slot);
        assert(all =~= front + back);
    }
}

/// A block is read transaction by transaction, in their order.
pub proof fn law_blocks_are_read_in_order(
    whole: Vec<BlockTransaction>,
    first: Vec<BlockTransaction>,
    rest: Vec<BlockTransaction>,
    slot: u64,
    r: Vec<RecoveredDelegation>,
    s: Vec<RecoveredDelegation>,
    t: Vec<RecoveredDelegation>,
)
    requires
        whole@ == first@ + rest@,
        call_ensures(recover_delegations_from_block, (&whole, slot), r),
        call_ensures(recover_delegations_from_block, (&first, slot), s),
        call_ensures(recover_delegations_from_block, (&rest, slot), t),
    ensures
        r@ == s@ + t@,
{
    lemma_blocks_add_up(first@, rest@, slot);
}

/// A block of one transaction makes the delegations of that transaction, if its outcome is
/// known and its message can be read.
pub proof fn law_blocks_hold_what_their_transactions_made(
    block: Vec<BlockTransaction>,
    message: TransactionMessage,
    slot: u64,
    r: Vec<RecoveredDelegation>,
    s: Vec<RecoveredDelegation>,
)
    requires
        block@.len() == 1,
        block@[0].meta is Some,
        call_ensures(
            EncodedTransaction::decode,
            (&block@[0].transaction,),
            Some(message),
        ),
        call_ensures(recover_delegations_from_block, (&block, slot), r),
        call_ensures(
            recover_delegations_from_transaction,
            (&message, &block@[0].meta->0, slot),
            s,
        ),
    ensures
        r@ == s@,
{
    assert(block@.drop_last().len() == 0);
    assert(block_delegations(block@.drop_last(), slot)
        =~= Seq::empty());
    assert(r@ =~= s@);
}

/// An event that comes after the barrier that ruled it out is noticed; then every barrier is
/// given up, and the replay starts before the event.
pub proof fn law_violations_are_noticed(stream: &mut RecordStream, slot: u64, violated: bool)
    requires
        call_ensures(RecordStream::interrupt_on_watermark_violation, (stream, slot), violated),
    ensures
        violated <==> 0 < old(stream).watermark && slot <= old(stream).watermark,
        violated ==> {
            &&& final(stream).watermark == 0
            &&& final(stream).slot == slot
            &&& final(stream).last_confirmed_slot < slot || final(stream).last_confirmed_slot == 0
            &&& final(stream).last_confirmed_slot <= old(stream).last_confirmed_slot
            &&& final(stream).continuity_epoch != old(stream).continuity_epoch
        },
        !violated ==> {
            &&& final(stream).watermark == old(stream).watermark
            &&& final(stream).last_confirmed_slot == old(stream).last_confirmed_slot
            &&& final(stream).continuity_epoch == old(stream).continuity_epoch
            &&& final(stream).slot >= slot && final(stream).slot >= old(stream).slot
            &&& final(stream).slot == slot || final(stream).slot == old(stream).slot
        },
{
}

/// Giving up continuity gives up the barriers and makes what was sent before old; the places in
/// the stream stay.
pub proof fn law_continuity_is_given_up(stream: &mut RecordStream)
    requires
        call_ensures(RecordStream::invalidate_continuity, (stream,), ()),
    ensures
        final(stream).watermark == 0,
        final(stream).continuity_epoch != old(stream).continuity_epoch,
        old(stream).continuity_epoch < u64::MAX ==> final(stream).continuity_epoch
            > old(stream).continuity_epoch,
        final(stream).slot == old(stream).slot,
        final(stream).last_confirmed_slot == old(stream).last_confirmed_slot,
{
}

/// Only records carry bytes, as many as their data has.
pub proof fn law_records_carry_their_bytes(update: RecordStreamUpdate, r: usize)
    requires
        call_ensures(RecordStreamUpdate::payload_bytes, (&update,), r),
    ensures
        match update {
            RecordStreamUpdate::Record { data, .. } => r == data@.len(),
            _ => r == 0,
        },
{
}

/// The source is asked for the accounts of the delegation program that begin with the mark of
/// a record or of an undelegation request, for its transactions and for the slots, all
/// confirmed, from the slot where the replay starts.
pub proof fn law_sources_are_asked_for_everything(
    from_slot: Option<u64>,
    i: int,
    k: int,
    r: SubscribeRequest,
)
    requires
        call_ensures(RecordStream::subscribe_request, (from_slot,), r),
        0 <= i < 2,
        0 < k < 8,
    ensures
        r.accounts@.len() == 2,
        r.accounts@[i].owner@.len() == 1,
        r.accounts@[i].owner@[0]@ == address_text(DLP_PROGRAM_ID@),
        r.accounts@[i].filter.offset == 0,
        r.accounts@[i].filter.bytes@.len() == 8,
        r.accounts@[0].filter.bytes@[0] == 100,
        r.accounts@[1].filter.bytes@[0] == 104,
        r.accounts@[i].filter.bytes@[k] == 0,
        r.account_include@.len() == 1,
        r.account_include@[0]@ == address_text(DLP_PROGRAM_ID@),
        r.confirmed && r.filter_by_commitment,
        r.from_slot == from_slot,
{
    assert(r.accounts@[0].asks_for("delegations"@, DELEGATION_RECORD_DISCRIMINATOR));
    assert(r.accounts@[1].asks_for("undelegation-requests"@, UNDELEGATION_REQUEST_DISCRIMINATOR));
}

} // verus!
