//! What holds of delegation records and undelegation requests.
use vstd::prelude::*;
use crate::account::{Account, AccountMode, RemoteAccount, ResolvedAccount};
use crate::bytes::{has_discriminator, read_u64};
use crate::chainlink::errors::ChainlinkError;
use crate::chainlink::fetch_cloner::delegation::{
    apply_delegation_record_to_account, drops_record_subscription, get_delegated_to_other,
    parse_delegation_record, parse_raw_eata_pda, raw_eata_parties, read_fetched_record,
    record_with_actions, ActionsFailure,
};
use crate::cloner::Instruction;
use crate::delegation_record::{
    dlp_program_update_step, fetched_record_header, is_delegated_to_validator_or_confined,
    parse_delegation_record_header, read_record, read_undelegation_request,
    should_forward_dlp_program_update, DelegationRecord, DlpProgramUpdate, FetchError, RecordError,
    UndelegationRequest,
};
use crate::program_ids::DLP_PROGRAM_ID;
use crate::pubkey::{lemma_pubkey_bytes_determine, Pubkey};

verus! {

/// Whether an address is all zero.
pub open spec fn is_nobody(key: Pubkey) -> bool {
    forall|i: int| 0 <= i < 32 ==> #[trigger] key@[i] == 0
}

/// An address is all zero exactly if its bytes are those of the one that stands for nobody.
pub proof fn lemma_nobody(key: Pubkey)
    ensures
        is_nobody(key) <==> key@ == crate::pubkey::zero_pubkey(),
{
    if is_nobody(key) {
        assert(key@ =~= crate::pubkey::zero_pubkey());
    }
}

/// Applying a delegation record changes the owner, the confinement and the mode of an account,
/// and nothing else.
pub proof fn law_records_leave_the_state_alone(
    validator: Pubkey,
    is_raw_eata: bool,
    account: &mut Account,
    record: DelegationRecord,
    r: Option<u64>,
)
    requires
        call_ensures(
            apply_delegation_record_to_account,
            (&validator, is_raw_eata, account, &record),
            r,
        ),
    ensures
        final(account).lamports == old(account).lamports,
        final(account).data == old(account).data,
        final(account).executable == old(account).executable,
        final(account).slot == old(account).slot,
        final(account).compressed == old(account).compressed,
        final(account).owner == record.owner,
        final(account).confined <==> is_nobody(record.authority),
{
    lemma_nobody(record.authority);
}

/// A record makes the rollup run an account exactly if it names this validator or nobody, and
/// the account does not hold a wallet's tokens; then it is committed as often as the record
/// says. No other mode comes of a record than that of a mere copy.
pub proof fn law_records_say_who_runs_an_account(
    validator: Pubkey,
    is_raw_eata: bool,
    account: &mut Account,
    record: DelegationRecord,
    r: Option<u64>,
)
    requires
        call_ensures(
            apply_delegation_record_to_account,
            (&validator, is_raw_eata, account, &record),
            r,
        ),
    ensures
        final(account).mode == AccountMode::Delegated <==> !is_raw_eata && (record.authority
            == validator || is_nobody(record.authority)),
        r is Some <==> final(account).mode == AccountMode::Delegated,
        r is Some ==> r == Some(record.commit_frequency_ms),
        final(account).mode != AccountMode::Delegated ==> final(account).mode == old(account).mode
            || (old(account).mode == AccountMode::Delegated && final(account).mode
            == AccountMode::ReadOnly),
{
    lemma_nobody(record.authority);
}

/// The other validator that a record names is the one in its authority, and there is none if
/// that is this validator or nobody.
pub proof fn law_records_name_other_validators(
    validator: Pubkey,
    record: DelegationRecord,
    r: Option<Pubkey>,
)
    requires
        call_ensures(get_delegated_to_other, (&validator, &record), r),
    ensures
        record.authority == validator ==> r is None,
        is_nobody(record.authority) ==> r is None,
        record.authority != validator && !is_nobody(record.authority) ==> r == Some(
            record.authority,
        ),
{
    lemma_nobody(record.authority);
}

/// An account is delegated here if its record names this validator or nobody.
pub proof fn law_authorities_are_told_apart(authority: Pubkey, validator: Pubkey, r: bool)
    requires
        call_ensures(is_delegated_to_validator_or_confined, (&authority, &validator), r),
    ensures
        authority == validator ==> r,
        is_nobody(authority) ==> r,
        r && !is_nobody(authority) ==> authority == validator,
{
    lemma_nobody(authority);
}

/// A number is written with its least significant byte first.
pub proof fn law_numbers_are_little_endian(data: &[u8], start: usize, r: u64, k: int)
    requires
        start + 8 <= data@.len(),
        call_ensures(read_u64, (data, start), r),
        0 <= k < 8,
        forall|i: int| 0 <= i < 8 && i != k ==> #[trigger] data@[start + i] == 0,
    ensures
        k == 0 ==> r == data@[start + k],
        k == 1 ==> r == 0x100 * data@[start + k],
        k == 2 ==> r == 0x1_0000 * data@[start + k],
        k == 3 ==> r == 0x100_0000 * data@[start + k],
        k == 4 ==> r == 0x1_0000_0000 * data@[start + k],
        k == 5 ==> r == 0x100_0000_0000 * data@[start + k],
        k == 6 ==> r == 0x1_0000_0000_0000 * data@[start + k],
        k == 7 ==> r == 0x100_0000_0000_0000 * data@[start + k],
{
    assert forall|i: int| 0 <= i < 8 && i != k implies #[trigger] data@[start + i] == 0 by {}
    assert(k != 0 ==> data@[start + 0] == 0);
    assert(k != 1 ==> data@[start + 1] == 0);
    assert(k != 2 ==> data@[start + 2] == 0);
    assert(k != 3 ==> data@[start + 3] == 0);
    assert(k != 4 ==> data@[start + 4] == 0);
    assert(k != 5 ==> data@[start + 5] == 0);
    assert(k != 6 ==> data@[start + 6] == 0);
    assert(k != 7 ==> data@[start + 7] == 0);
}

/// A number below 256 and a multiple of 256 can be told from their sum.
proof fn lemma_split(a: int, b: int, x: int, y: int)
    requires
        0 <= a < 0x100,
        0 <= b < 0x100,
        a + 0x100 * x == b + 0x100 * y,
    ensures
        a == b,
        x == y,
{
}

/// Eight bytes can be told from the number that they are.
proof fn lemma_numbers_differ(s: Seq<u8>, t: Seq<u8>)
    requires
        s.len() == 8,
        t.len() == 8,
        crate::bytes::le_value(s, 0) == crate::bytes::le_value(t, 0),
    ensures
        s == t,
{
    let s7 = s[7] as int;
    let s6 = s[6] + 0x100 * s7;
    let s5 = s[5] + 0x100 * s6;
    let s4 = s[4] + 0x100 * s5;
    let s3 = s[3] + 0x100 * s4;
    let s2 = s[2] + 0x100 * s3;
    let s1 = s[1] + 0x100 * s2;
    let t7 = t[7] as int;
    let t6 = t[6] + 0x100 * t7;
    let t5 = t[5] + 0x100 * t6;
    let t4 = t[4] + 0x100 * t5;
    let t3 = t[3] + 0x100 * t4;
    let t2 = t[2] + 0x100 * t3;
    let t1 = t[1] + 0x100 * t2;
    lemma_split(s[0] as int, t[0] as int, s1, t1);
    lemma_split(s[1] as int, t[1] as int, s2, t2);
    lemma_split(s[2] as int, t[2] as int, s3, t3);
    lemma_split(s[3] as int, t[3] as int, s4, t4);
    lemma_split(s[4] as int, t[4] as int, s5, t5);
    lemma_split(s[5] as int, t[5] as int, s6, t6);
    lemma_split(s[6] as int, t[6] as int, s7, t7);
    assert(s =~= t);
}

/// The number at a place depends on its eight bytes and on nothing else, and two numbers are
/// equal only if their bytes are.
pub proof fn law_numbers_are_their_bytes(
    a: &[u8],
    a_start: usize,
    b: &[u8],
    b_start: usize,
    x: u64,
    y: u64,
)
    requires
        a_start + 8 <= a@.len(),
        b_start + 8 <= b@.len(),
        call_ensures(read_u64, (a, a_start), x),
        call_ensures(read_u64, (b, b_start), y),
    ensures
        x == y <==> a@.subrange(a_start as int, a_start + 8) == b@.subrange(
            b_start as int,
            b_start + 8,
        ),
{
    let s = a@.subrange(a_start as int, a_start + 8);
    let t = b@.subrange(b_start as int, b_start + 8);
    assert(x == crate::bytes::le_value(s, 0));
    assert(y == crate::bytes::le_value(t, 0));
    if x == y {
        lemma_numbers_differ(s, t);
    }
}

/// Whether bytes begin with a mark of eight bytes.
pub open spec fn is_marked(data: Seq<u8>, mark: u8) -> bool {
    data.len() >= 8 && data.take(8) == seq![mark, 0u8, 0u8, 0u8, 0u8, 0u8, 0u8, 0u8]
}

/// Bytes begin with a mark exactly if they start with it byte by byte.
pub proof fn lemma_marked(data: Seq<u8>, mark: u8)
    ensures
        is_marked(data, mark) <==> crate::bytes::starts_with_discriminator(data, mark),
{
    if data.len() >= 8 {
        let head = data.take(8);
        let wanted = seq![mark, 0u8, 0u8, 0u8, 0u8, 0u8, 0u8, 0u8];
        assert(forall|i: int| 0 <= i < 8 ==> head[i] == data[i]);
        if head == wanted {
            assert(wanted[0] == mark && wanted[1] == 0 && wanted[2] == 0 && wanted[3] == 0
                && wanted[4] == 0 && wanted[5] == 0 && wanted[6] == 0 && wanted[7] == 0);
        }
        if crate::bytes::starts_with_discriminator(data, mark) {
            assert(head =~= wanted);
        }
    }
}

/// Bytes carry a mark exactly if they begin with it; what follows does not matter.
pub proof fn law_marks_come_first(data: &[u8], mark: u8, r: bool)
    requires
        call_ensures(has_discriminator, (data, mark), r),
    ensures
        r <==> is_marked(data@, mark),
{
    lemma_marked(data@, mark);
}

/// A record is read from any bytes that begin with its mark and are long enough, and from no
/// others.
pub proof fn law_records_are_read(data: &[u8], r: Result<DelegationRecord, RecordError>)
    requires
        call_ensures(read_record, (data,), r),
    ensures
        r is Ok <==> data@.len() >= 96 && is_marked(data@, 100),
        data@.len() < 96 ==> r == Err::<DelegationRecord, _>(RecordError::TooShort),
        data@.len() >= 96 && !is_marked(data@, 100) ==> r == Err::<DelegationRecord, _>(
            RecordError::WrongDiscriminator,
        ),
        r matches Ok(record) ==> record.authority@ == data@.subrange(8, 40) && record.owner@
            == data@.subrange(40, 72),
{
    lemma_marked(data@, 100);
    if r is Err {
        assert(r->Err_0 == RecordError::TooShort || r->Err_0 == RecordError::WrongDiscriminator);
    }
}

/// The numbers of a record stand behind its addresses: the slot of the delegation, then the
/// lamports, then how often to commit.
pub proof fn law_records_hold_numbers(
    data: &[u8],
    record: DelegationRecord,
    delegation_slot: u64,
    lamports: u64,
    commit_frequency_ms: u64,
)
    requires
        call_ensures(read_record, (data,), Ok(record)),
        data@.len() >= 96,
        call_ensures(read_u64, (data, 72usize), delegation_slot),
        call_ensures(read_u64, (data, 80usize), lamports),
        call_ensures(read_u64, (data, 88usize), commit_frequency_ms),
    ensures
        record.delegation_slot == delegation_slot,
        record.lamports == lamports,
        record.commit_frequency_ms == commit_frequency_ms,
{
}

/// What follows a record does not change how it is read.
pub proof fn law_records_end_where_they_end(
    a: &[u8],
    b: &[u8],
    x: Result<DelegationRecord, RecordError>,
    y: Result<DelegationRecord, RecordError>,
)
    requires
        a@.len() >= 96,
        b@.len() >= 96,
        a@.take(96) == b@.take(96),
        call_ensures(read_record, (a,), x),
        call_ensures(read_record, (b,), y),
    ensures
        x == y,
{
    assert(forall|i: int| 0 <= i < 96 ==> a@.take(96)[i] == a@[i]);
    assert(forall|i: int| 0 <= i < 96 ==> b@.take(96)[i] == b@[i]);
    assert(a@.subrange(8, 40) =~= b@.subrange(8, 40));
    assert(a@.subrange(40, 72) =~= b@.subrange(40, 72));
    lemma_marked(a@, 100);
    lemma_marked(b@, 100);
    assert(a@.take(8) =~= b@.take(8));
    assert(x is Err ==> x->Err_0 == RecordError::TooShort || x->Err_0
        == RecordError::WrongDiscriminator);
    assert(y is Err ==> y->Err_0 == RecordError::TooShort || y->Err_0
        == RecordError::WrongDiscriminator);
    if x is Ok && y is Ok {
        lemma_pubkey_bytes_determine(x->Ok_0.authority, y->Ok_0.authority);
        lemma_pubkey_bytes_determine(x->Ok_0.owner, y->Ok_0.owner);
    }
}

/// The header of a record is the record.
pub proof fn law_headers_are_records(
    data: &[u8],
    header: Option<DelegationRecord>,
    record: Result<DelegationRecord, RecordError>,
)
    requires
        call_ensures(parse_delegation_record_header, (data,), header),
        call_ensures(read_record, (data,), record),
    ensures
        header is Some <==> record is Ok,
        header is Some ==> header == Some(record->Ok_0),
{
    if header is Some && record is Ok {
        lemma_pubkey_bytes_determine(header->0.authority, record->Ok_0.authority);
        lemma_pubkey_bytes_determine(header->0.owner, record->Ok_0.owner);
    }
}

/// A fetch that found a record account gives its record; one that found none, or one that is
/// too short, gives none; anything else there is an error.
pub proof fn law_fetched_headers_are_records(
    data: Vec<u8>,
    fetched: Result<Option<DelegationRecord>, FetchError>,
    bytes: &[u8],
    record: Result<DelegationRecord, RecordError>,
    nothing: Result<Option<DelegationRecord>, FetchError>,
)
    requires
        bytes@ == data@,
        call_ensures(fetched_record_header, (Some(&data),), fetched),
        call_ensures(fetched_record_header, (None::<&Vec<u8>>,), nothing),
        call_ensures(read_record, (bytes,), record),
    ensures
        nothing == Ok::<_, FetchError>(None::<DelegationRecord>),
        record is Ok ==> fetched == Ok::<_, FetchError>(Some(record->Ok_0)),
        record == Err::<DelegationRecord, _>(RecordError::TooShort) ==> fetched == Ok::<
            _,
            FetchError,
        >(None::<DelegationRecord>),
        record == Err::<DelegationRecord, _>(RecordError::WrongDiscriminator) ==> fetched == Err::<
            Option<DelegationRecord>,
            _,
        >(FetchError::Deserialize),
{
    if record is Ok && fetched is Ok && fetched->Ok_0 is Some {
        lemma_pubkey_bytes_determine(fetched->Ok_0->0.authority, record->Ok_0.authority);
        lemma_pubkey_bytes_determine(fetched->Ok_0->0.owner, record->Ok_0.owner);
    }
}

/// An update of an account that is delegated here, or may be, is never held back; one of an
/// account that is delegated elsewhere always is.
pub proof fn law_updates_of_own_accounts_go_on(
    validator: Pubkey,
    fetched: Result<Option<DelegationRecord>, FetchError>,
    r: bool,
)
    requires
        call_ensures(should_forward_dlp_program_update, (&validator, &fetched), r),
    ensures
        fetched matches Ok(Some(record)) ==> (r <==> record.authority == validator || is_nobody(
            record.authority,
        )),
        fetched matches Ok(None) ==> r,
        fetched matches Err(FetchError::Transport) ==> r,
        fetched matches Err(FetchError::Deserialize) ==> !r,
{
    if fetched is Ok && fetched->Ok_0 is Some {
        lemma_nobody((fetched->Ok_0->0).authority);
    }
}

/// The record of an account is asked for exactly if the delegation program owns the account and
/// it is none of that program's own.
pub proof fn law_records_are_asked_for(owner: Pubkey, is_internal: bool, r: DlpProgramUpdate)
    requires
        call_ensures(dlp_program_update_step, (&owner, is_internal), r),
    ensures
        r == DlpProgramUpdate::FetchRecord <==> owner.bytes == DLP_PROGRAM_ID && !is_internal,
{
}

/// An undelegation request is read from any bytes that begin with its mark and are long enough,
/// and from no others; it names the account behind the mark.
pub proof fn law_requests_are_read(data: &[u8], r: Option<UndelegationRequest>)
    requires
        call_ensures(read_undelegation_request, (data,), r),
    ensures
        r is Some <==> data@.len() >= 48 && is_marked(data@, 104),
        r matches Some(request) ==> request.delegated_account@ == data@.subrange(8, 40),
        forall|expires_at_slot: u64|
            r is Some && #[trigger] call_ensures(read_u64, (data, 40usize), expires_at_slot)
                ==> r->0.expires_at_slot == expires_at_slot,
{
    lemma_marked(data@, 104);
}

/// Actions come with a record exactly if they follow it and it names this very validator, and
/// the record is the same with and without them.
pub proof fn law_actions_are_for_the_named_validator(
    data: &[u8],
    record_pubkey: Pubkey,
    validator: Pubkey,
    secret: &[u8; 32],
    r: Result<(DelegationRecord, Option<Vec<Instruction>>), ChainlinkError>,
    record: Result<DelegationRecord, RecordError>,
)
    requires
        call_ensures(parse_delegation_record, (data, record_pubkey, &validator, secret), r),
        call_ensures(read_record, (data,), record),
    ensures
        record is Err ==> r == Err::<(DelegationRecord, Option<Vec<Instruction>>), _>(
            ChainlinkError::InvalidDelegationRecord(record_pubkey, record->Err_0),
        ),
        record is Ok && (data@.len() == 96 || record->Ok_0.authority != validator) ==> r is Ok
            && r->Ok_0.1 is None,
        r matches Ok((read, actions)) ==> {
            &&& record == Ok::<_, RecordError>(read)
            &&& actions is Some <==> data@.len() > 96 && read.authority == validator
        },
{
    if record is Ok {
        if r is Ok {
            lemma_pubkey_bytes_determine(r->Ok_0.0.authority, record->Ok_0.authority);
            lemma_pubkey_bytes_determine(r->Ok_0.0.owner, record->Ok_0.owner);
        }
        if record->Ok_0.authority@ == validator@ {
            lemma_pubkey_bytes_determine(record->Ok_0.authority, validator);
        }
    }
}

/// Actions that could be had go with their record; if they could not, the error names the
/// record and ends in the words of what went wrong.
pub proof fn law_actions_go_with_their_record(
    record: DelegationRecord,
    record_pubkey: Pubkey,
    decrypted: Result<Vec<Instruction>, ActionsFailure>,
    r: Result<(DelegationRecord, Option<Vec<Instruction>>), ChainlinkError>,
)
    requires
        call_ensures(record_with_actions, (record, record_pubkey, decrypted), r),
    ensures
        decrypted matches Ok(instructions) ==> r == Ok::<_, ChainlinkError>(
            (record, Some(instructions)),
        ),
        decrypted is Err ==> (r matches Err(ChainlinkError::InvalidDelegationActions(key, text))
            && key == record_pubkey && text@ == decrypted->Err_0.text()),
{
}

/// What is fetched of a record is what its bytes say; what is not fetched from the chain is no
/// record.
pub proof fn law_fetched_records_are_read(
    account: Account,
    record_pubkey: Pubkey,
    validator: Pubkey,
    secret: &[u8; 32],
    found: Option<(DelegationRecord, Option<Vec<Instruction>>)>,
    bytes: &[u8],
    record: Result<DelegationRecord, RecordError>,
)
    requires
        bytes@ == account.data@,
        call_ensures(
            read_fetched_record,
            (
                &Some(RemoteAccount::Found(ResolvedAccount::Fresh(account))),
                record_pubkey,
                &validator,
                secret,
            ),
            found,
        ),
        call_ensures(read_record, (bytes,), record),
    ensures
        record is Err ==> found is None,
        record is Ok && (account.data@.len() == 96 || record->Ok_0.authority != validator)
            ==> found == Some((record->Ok_0, None::<Vec<Instruction>>)),
        found matches Some((read, actions)) ==> record == Ok::<_, RecordError>(read) && (actions
            is Some <==> account.data@.len() > 96 && read.authority == validator),
{
    if record is Ok {
        if found is Some {
            lemma_pubkey_bytes_determine((found->0).0.authority, record->Ok_0.authority);
            lemma_pubkey_bytes_determine((found->0).0.owner, record->Ok_0.owner);
        }
        if record->Ok_0.authority@ == validator@ {
            lemma_pubkey_bytes_determine(record->Ok_0.authority, validator);
        }
    }
}

/// The parties of an account that holds tokens are its first two addresses: the wallet, then
/// the mint.
pub proof fn law_holding_accounts_name_their_parties(data: &[u8], r: Option<(Pubkey, Pubkey)>)
    requires
        call_ensures(raw_eata_parties, (data,), r),
    ensures
        r is Some <==> data@.len() >= 72,
        r matches Some((wallet, mint)) ==> wallet@ == data@.subrange(0, 32) && mint@
            == data@.subrange(32, 64),
{
}

/// An account holds tokens for the rollup only under the address that is derived of its
/// parties, and only if the right program keeps it; and then its parties are those that it
/// names.
pub proof fn law_holding_accounts_are_where_they_belong(
    account_pubkey: Pubkey,
    data: &[u8],
    owner_program: Pubkey,
    eata_program: Pubkey,
    derived: Option<Pubkey>,
    r: Option<(Pubkey, Pubkey)>,
    parties: Option<(Pubkey, Pubkey)>,
)
    requires
        call_ensures(
            parse_raw_eata_pda,
            (&account_pubkey, data, &owner_program, &eata_program, derived),
            r,
        ),
        call_ensures(raw_eata_parties, (data,), parties),
    ensures
        owner_program != eata_program ==> r is None,
        derived != Some(account_pubkey) ==> r is None,
        owner_program == eata_program && derived == Some(account_pubkey) ==> r == parties,
{
    if r is Some && parties is Some {
        lemma_pubkey_bytes_determine((r->0).0, (parties->0).0);
        lemma_pubkey_bytes_determine((r->0).1, (parties->0).1);
    }
}

/// A subscription to a record that somebody else had, or that its clone needs, stays.
pub proof fn law_record_subscriptions_of_others_stay(was_watching: bool, in_bank: bool, r: bool)
    requires
        call_ensures(drops_record_subscription, (was_watching, in_bank), r),
    ensures
        was_watching ==> !r,
        in_bank ==> !r,
        !was_watching && !in_bank ==> r,
{
}

} // verus!
