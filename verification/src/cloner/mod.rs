//! Requests to bring an account into the bank.
use vstd::prelude::*;
use crate::account::{Account, AccountMode};
use crate::program_ids::{LOADER_V1_ID, LOADER_V4_ID, MAGIC_CONTEXT_ID, MAGIC_PROGRAM_ID};
use crate::pubkey::Pubkey;

pub mod errors;

verus! {

/// An account that an instruction names.
#[derive(Clone, Copy, Debug, PartialEq, Eq)]
pub struct AccountMeta {
    pub pubkey: Pubkey,
    pub is_signer: bool,
    pub is_writable: bool,
}

/// An instruction to be run once an account is delegated.
#[derive(Debug)]
pub struct Instruction {
    pub program_id: Pubkey,
    pub accounts: Vec<AccountMeta>,
    pub data: Vec<u8>,
}

/// The addresses that an instruction names, and whether it writes to them.
pub open spec fn instruction_addresses(instruction: Instruction) -> Seq<(Pubkey, bool)> {
    seq![(instruction.program_id, false)] + instruction.accounts@.map_values(
        |meta: AccountMeta| (meta.pubkey, meta.is_writable),
    )
}

/// Everything but `target`.
pub open spec fn other_than(target: Pubkey) -> spec_fn((Pubkey, bool)) -> bool {
    |dependency: (Pubkey, bool)| dependency.0 != target
}

/// The addresses that an instruction needs besides `target`, and whether it writes to them.
pub open spec fn instruction_dependencies(instruction: Instruction, target: Pubkey) -> Seq<
    (Pubkey, bool),
> {
    instruction_addresses(instruction).filter(other_than(target))
}

/// The addresses that instructions need besides `target`, in the order in which they name
/// them.
pub open spec fn action_dependencies(actions: Seq<Instruction>, target: Pubkey) -> Seq<
    (Pubkey, bool),
>
    decreases actions.len(),
{
    if actions.len() == 0 {
        Seq::empty()
    } else {
        action_dependencies(actions.drop_last(), target) + instruction_dependencies(
            actions.last(),
            target,
        )
    }
}

/// Post-delegation actions, of which there is at least one, with the program that owned the
/// account when it was delegated.
#[derive(Debug)]
pub struct DelegationActions {
    source_program: Pubkey,
    actions: Vec<Instruction>,
}

impl DelegationActions {
    /// The program that owned the delegated account.
    pub closed spec fn source(&self) -> Pubkey {
        self.source_program
    }

    /// The instructions.
    pub closed spec fn instructions(&self) -> Seq<Instruction> {
        self.actions@
    }

    #[verifier::type_invariant]
    spec fn non_empty(&self) -> bool {
        self.actions@.len() > 0
    }

    /// The actions, or nothing if there are none.
    pub fn new(source_program: Pubkey, actions: Vec<Instruction>) -> (r: Option<DelegationActions>)
        ensures
            r is None <==> actions@.len() == 0,
            r matches Some(bundle) ==> bundle.source() == source_program && bundle.instructions()
                == actions@,
    {
        if actions.len() == 0 {
            None
        } else {
            Some(DelegationActions { source_program, actions })
        }
    }

    /// The program that owned the delegated account.
    pub fn source_program(&self) -> (r: Pubkey)
        ensures
            r == self.source(),
    {
        self.source_program
    }

    /// The instructions to run, at least one.
    pub fn actions(&self) -> (r: &Vec<Instruction>)
        ensures
            r@ == self.instructions(),
            r@.len() > 0,
    {
        proof {
            use_type_invariant(self);
        }
        &self.actions
    }

    /// The addresses that the actions need besides `target`, and whether they write to them.
    pub fn dependencies(&self, target: Pubkey) -> (r: Vec<(Pubkey, bool)>)
        ensures
            r@ == action_dependencies(self.instructions(), target),
    {
        let mut found: Vec<(Pubkey, bool)> = Vec::new();
        let mut i: usize = 0;
        while i < self.actions.len()
            invariant
                i <= self.actions.len(),
                found@ == action_dependencies(self.actions@.take(i as int), target),
            decreases self.actions.len() - i,
        {
            append_dependencies(&mut found, &self.actions[i], target);
            i = i + 1;
            assert(self.actions@.take(i as int).drop_last() =~= self.actions@.take(i - 1));
        }
        assert(self.actions@.take(self.actions@.len() as int) =~= self.actions@);
        found
    }
}

/// Filtering a longer list filters its last element.
pub proof fn lemma_filter_push<A>(list: Seq<A>, item: A, keep: spec_fn(A) -> bool)
    ensures
        list.push(item).filter(keep) == if keep(item) {
            list.filter(keep).push(item)
        } else {
            list.filter(keep)
        },
{
    reveal(Seq::filter);
    assert(list.push(item).drop_last() =~= list);
}

fn append_dependencies(
    found: &mut Vec<(Pubkey, bool)>,
    instruction: &Instruction,
    target: Pubkey,
)
    ensures
        final(found)@ == old(found)@ + instruction_dependencies(*instruction, target),
{
    let ghost before = found@;
    let ghost keep = other_than(target);
    let ghost named = instruction_addresses(*instruction);
    if instruction.program_id != target {
        found.push((instruction.program_id, false));
    }
    proof {
        lemma_filter_push(Seq::<(Pubkey, bool)>::empty(), named[0], keep);
        reveal(Seq::filter);
        assert(Seq::<(Pubkey, bool)>::empty().push(named[0]) =~= named.take(1));
        assert(found@ =~= before + named.take(1).filter(keep));
    }
    let mut i: usize = 0;
    while i < instruction.accounts.len()
        invariant
            i <= instruction.accounts.len(),
            named == instruction_addresses(*instruction),
            keep == other_than(target),
            found@ == before + named.take(i + 1).filter(keep),
        decreases instruction.accounts.len() - i,
    {
        let meta = instruction.accounts[i];
        if meta.pubkey != target {
            found.push((meta.pubkey, meta.is_writable));
        }
        proof {
            lemma_filter_push(named.take(i + 1), named[i + 1], keep);
            assert(named.take(i + 1).push(named[i + 1]) =~= named.take(i + 2));
        }
        i = i + 1;
        assert(found@ =~= before + named.take(i + 1).filter(keep));
    }
    assert(named.take(named.len() as int) =~= named);
}

/// What happens after an account was cloned.
#[derive(Debug)]
pub enum ClonePostDelegationMode {
    /// Nothing.
    Plain,
    /// Its actions are run.
    ExecuteActions(DelegationActions),
    /// It is given back in place of running its actions, which its program had asked for.
    RescueUndelegate(Pubkey),
}

impl Default for ClonePostDelegationMode {
    fn default() -> (r: ClonePostDelegationMode)
        ensures
            r is Plain,
    {
        ClonePostDelegationMode::Plain
    }
}

impl ClonePostDelegationMode {
    /// The actions to run, if any.
    pub fn delegation(&self) -> (r: Option<&DelegationActions>)
        ensures
            r == match self {
                ClonePostDelegationMode::ExecuteActions(actions) => Some(actions),
                _ => None,
            },
    {
        match self {
            ClonePostDelegationMode::ExecuteActions(actions) => Some(actions),
            _ => None,
        }
    }

    /// Whether there are actions to run.
    pub fn has_actions(&self) -> (r: bool)
        ensures
            r == (self is ExecuteActions),
    {
        match self {
            ClonePostDelegationMode::ExecuteActions(_) => true,
            _ => false,
        }
    }

    /// Runs the actions, if there are any.
    pub fn from_actions(actions: Option<DelegationActions>) -> (r: ClonePostDelegationMode)
        ensures
            r == match actions {
                Some(actions) => ClonePostDelegationMode::ExecuteActions(actions),
                None => ClonePostDelegationMode::Plain,
            },
    {
        match actions {
            Some(actions) => ClonePostDelegationMode::ExecuteActions(actions),
            None => ClonePostDelegationMode::Plain,
        }
    }
}

/// The slots of what an account was put together from.
#[derive(Clone, Copy, Debug, PartialEq, Eq, Structural)]
pub struct CloneSourceSlots {
    /// That of the account's data.
    pub data: u64,
    /// The latest of all.
    pub view: u64,
}

impl CloneSourceSlots {
    /// An account that comes from one place.
    pub fn single(slot: u64) -> (r: CloneSourceSlots)
        ensures
            r.data == slot,
            r.view == slot,
    {
        CloneSourceSlots { data: slot, view: slot }
    }

    /// A token account whose balance comes from another account.
    pub fn projected(ata: u64, eata: u64) -> (r: CloneSourceSlots)
        ensures
            r.data == ata,
            r.view == if ata >= eata {
                ata
            } else {
                eata
            },
    {
        CloneSourceSlots {
            data: ata,
            view: if ata >= eata {
                ata
            } else {
                eata
            },
        }
    }
}

/// An account to bring into the bank.
#[derive(Debug)]
pub struct AccountCloneRequest {
    pub pubkey: Pubkey,
    pub account: Account,
    /// How often the account's state is to be committed, if it is to be.
    pub commit_frequency_ms: Option<u64>,
    pub post_delegation_mode: ClonePostDelegationMode,
    /// The other validator that the account is delegated to, if it is.
    pub delegated_to_other: Option<Pubkey>,
    /// What the account was put together from, if from more than itself.
    pub source_slots: Option<CloneSourceSlots>,
}

impl AccountCloneRequest {
    /// A request that takes the account as it is.
    pub fn plain(pubkey: Pubkey, account: Account) -> (r: AccountCloneRequest)
        ensures
            r == (AccountCloneRequest {
                pubkey,
                account,
                commit_frequency_ms: None,
                post_delegation_mode: ClonePostDelegationMode::Plain,
                delegated_to_other: None,
                source_slots: None,
            }),
    {
        AccountCloneRequest {
            pubkey,
            account,
            commit_frequency_ms: None,
            post_delegation_mode: ClonePostDelegationMode::Plain,
            delegated_to_other: None,
            source_slots: None,
        }
    }

    /// The slots of what the account was put together from; the account's own if nothing else
    /// is said.
    pub fn source_slots(&self) -> (r: CloneSourceSlots)
        ensures
            r == match self.source_slots {
                Some(slots) => slots,
                None => CloneSourceSlots { data: self.account.slot, view: self.account.slot },
            },
    {
        match self.source_slots {
            Some(slots) => slots,
            None => CloneSourceSlots::single(self.account.slot),
        }
    }
}

/// Whether an account may be claimed for a remote image: not if it belongs to the rollup.
pub fn claims_materialization(observed: Option<AccountMode>) -> (r: bool)
    ensures
        r == (observed != Some(AccountMode::Magic)),
{
    match observed {
        Some(mode) => mode != AccountMode::Magic,
        None => true,
    }
}

/// The loader that keeps a program on chain.
#[derive(Clone, Copy, Debug, PartialEq, Eq, Structural)]
pub enum RemoteProgramLoader {
    V1,
    V2,
    V3,
    V4,
}

/// A program as the chain holds it.
#[derive(Debug)]
pub struct LoadedProgram {
    pub program_id: Pubkey,
    pub program_data: Vec<u8>,
    pub lamports: u64,
    pub loader: RemoteProgramLoader,
    /// Whether it is deployed no longer.
    pub retracted: bool,
    pub remote_slot: u64,
}

/// The request that brings a program into the bank: an executable account with the bare code,
/// owned by the fourth loader, or by the first if that is where it comes from. Nothing for a
/// program that is deployed no longer.
pub fn resolve_program(program: LoadedProgram) -> (r: Option<AccountCloneRequest>)
    ensures
        r is None <==> program.retracted,
        r matches Some(request) ==> {
            &&& request.pubkey == program.program_id
            &&& request.account.lamports == program.lamports
            &&& request.account.data == program.program_data
            &&& request.account.owner.bytes == if program.loader == RemoteProgramLoader::V1 {
                LOADER_V1_ID
            } else {
                LOADER_V4_ID
            }
            &&& request.account.executable
            &&& request.account.slot == program.remote_slot
            &&& request.account.mode == AccountMode::ReadOnly
            &&& !request.account.confined
            &&& !request.account.compressed
            &&& request.commit_frequency_ms is None
            &&& request.post_delegation_mode is Plain
            &&& request.delegated_to_other is None
            &&& request.source_slots is None
        },
{
    if program.retracted {
        return None;
    }
    let owner = match program.loader {
        RemoteProgramLoader::V1 => Pubkey { bytes: LOADER_V1_ID },
        _ => Pubkey { bytes: LOADER_V4_ID },
    };
    let account = Account {
        lamports: program.lamports,
        data: program.program_data,
        owner,
        executable: true,
        slot: program.remote_slot,
        mode: AccountMode::ReadOnly,
        confined: false,
        compressed: false,
    };
    Some(AccountCloneRequest::plain(program.program_id, account))
}

/// The place of the account to give back among the accounts of `undelegation_action`.
pub const UNDELEGATED_ACCOUNT_INDEX: u8 = 2;

/// The accounts of `undelegation_action`: the authority, who signs, the rollup's context and the
/// account to give back.
pub open spec fn undelegation_accounts(authority: Pubkey, pubkey: Pubkey) -> Seq<AccountMeta> {
    seq![
        AccountMeta { pubkey: authority, is_signer: true, is_writable: false },
        AccountMeta {
            pubkey: Pubkey { bytes: MAGIC_CONTEXT_ID },
            is_signer: false,
            is_writable: true,
        },
        AccountMeta { pubkey, is_signer: false, is_writable: true },
    ]
}

/// The instruction that schedules an account to be committed and given back. `data` is the
/// rollup program's encoding of that intent for the account at `UNDELEGATED_ACCOUNT_INDEX`.
/// The authority signs and stays read-only.
pub fn undelegation_action(authority: Pubkey, pubkey: Pubkey, data: Vec<u8>) -> (r: Instruction)
    ensures
        r.program_id.bytes == MAGIC_PROGRAM_ID,
        r.data == data,
        r.accounts@ == undelegation_accounts(authority, pubkey),
        r.accounts@[UNDELEGATED_ACCOUNT_INDEX as int].pubkey == pubkey,
{
    let mut accounts: Vec<AccountMeta> = Vec::new();
    accounts.push(AccountMeta { pubkey: authority, is_signer: true, is_writable: false });
    accounts.push(
        AccountMeta {
            pubkey: Pubkey { bytes: MAGIC_CONTEXT_ID },
            is_signer: false,
            is_writable: true,
        },
    );
    accounts.push(AccountMeta { pubkey, is_signer: false, is_writable: true });
    Instruction { program_id: Pubkey { bytes: MAGIC_PROGRAM_ID }, accounts, data }
}

/// What is run once a cloned account is in use, in the name of the program that owned it.
#[derive(Debug)]
pub struct PostFinalize {
    pub source_program: Pubkey,
    pub actions: Vec<Instruction>,
}

impl DelegationActions {
    /// The actions, to be run once the account is in use.
    pub fn into_post_finalize(self) -> (r: PostFinalize)
        ensures
            r.source_program == self.source(),
            r.actions@ == self.instructions(),
            r.actions@.len() > 0,
    {
        proof {
            use_type_invariant(&self);
        }
        PostFinalize { source_program: self.source_program, actions: self.actions }
    }
}

/// What is run once a cloned account is in use: its actions, or what gives it back, or nothing.
/// `intent` is the rollup program's encoding of the intent to give it back.
pub fn post_finalize(
    mode: ClonePostDelegationMode,
    authority: Pubkey,
    pubkey: Pubkey,
    intent: Vec<u8>,
) -> (r: Option<PostFinalize>)
    ensures
        match mode {
            ClonePostDelegationMode::Plain => r is None,
            ClonePostDelegationMode::ExecuteActions(actions) => r matches Some(after)
                && after.source_program == actions.source() && after.actions@
                == actions.instructions(),
            ClonePostDelegationMode::RescueUndelegate(program) => r matches Some(after)
                && after.source_program == program && after.actions@.len() == 1
                && after.actions@[0].program_id.bytes == MAGIC_PROGRAM_ID && after.actions@[0].data
                == intent && after.actions@[0].accounts@ == undelegation_accounts(
                authority,
                pubkey,
            ),
        },
{
    match mode {
        ClonePostDelegationMode::Plain => None,
        ClonePostDelegationMode::ExecuteActions(actions) => Some(actions.into_post_finalize()),
        ClonePostDelegationMode::RescueUndelegate(source_program) => {
            let mut actions: Vec<Instruction> = Vec::new();
            actions.push(undelegation_action(authority, pubkey, intent));
            Some(PostFinalize { source_program, actions })
        },
    }
}

} // verus!
