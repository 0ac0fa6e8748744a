//! Updates of programs that may be loaded already.
use vstd::prelude::*;
use vstd::slice::slice_subrange;
use crate::bytes::{copy_bytes, same_bytes};
use crate::chainlink::fetch_cloner::rules::{is_program_allowed, program_allowed};
use crate::lru_map::{
    holds, keys_distinct, lemma_position, lemma_pushed_value, position, promoted, pushed,
    value_of, without, LruMap,
};
use crate::pda::{program_data_address, program_data_pda};
use crate::program_ids::{LOADER_V1_ID, LOADER_V2_ID, LOADER_V3_ID};
use crate::pubkey::Pubkey;

verus! {

/// The milliseconds between two looks at a loaded program on chain.
pub const PROGRAM_VERIFY_THROTTLE_MS: u64 = 60_000;

/// The milliseconds after that time at which a look that was put off is taken.
pub const DEFERRED_VERIFY_MARGIN_MS: u64 = 10;

/// The bytes before a program's code: a tag, the slot of its deployment and its authority.
pub const PROGRAMDATA_HEADER_LEN: usize = 45;

/// What is remembered of a program that was loaded.
#[derive(Debug)]
pub struct ProgramVerifyState {
    /// The bytes before its code, for programs that keep it in another account.
    pub programdata_header: Option<Vec<u8>>,
    /// When it was loaded or last looked at, in milliseconds.
    pub verified_at: u64,
    /// Whether a look was put off until the throttle lets go.
    pub deferred_verify: bool,
}

/// What an update of a program leads to first.
#[derive(Clone, Copy, Debug, PartialEq, Eq)]
pub enum ExecutableStep {
    /// Nothing: it may not be cloned, or its loader never changes a program.
    Ignore,
    /// It may be known already. `program_data` keeps its code if `of_loader_v3`.
    Resolve { program_data: Pubkey, of_loader_v3: bool },
}

/// Tells what an update of a program leads to first.
pub fn executable_step(allowed: &Option<Vec<Pubkey>>, pubkey: &Pubkey, owner: &Pubkey) -> (r:
    ExecutableStep)
    ensures
        if !program_allowed(*allowed, *pubkey) || owner.bytes == LOADER_V1_ID {
            r == ExecutableStep::Ignore
        } else {
            &&& r matches ExecutableStep::Resolve { program_data, of_loader_v3 }
            &&& program_data@ == program_data_address(pubkey@)
            &&& of_loader_v3 == (owner.bytes == LOADER_V3_ID)
        },
{
    if !is_program_allowed(allowed, pubkey) || owner.is(&LOADER_V1_ID) {
        return ExecutableStep::Ignore;
    }
    ExecutableStep::Resolve {
        program_data: program_data_pda(pubkey),
        of_loader_v3: owner.is(&LOADER_V3_ID),
    }
}

/// How an update of a program goes on.
#[derive(Debug)]
pub enum LoadedProgramStep {
    /// The program is loaded anew.
    Reload,
    /// Nothing has to be done.
    Done,
    /// Nothing now; a look is taken after this many milliseconds.
    Defer { delay_ms: u64 },
    /// The bytes before its code are compared with these.
    CheckHeader { loaded_header: Vec<u8> },
}

/// The milliseconds since a program was looked at.
pub open spec fn elapsed_ms(state: ProgramVerifyState, now: u64) -> int {
    if now >= state.verified_at {
        now - state.verified_at
    } else {
        0
    }
}

/// Whether the update of a known program falls into the time in which it is not looked at.
pub open spec fn is_throttled(state: ProgramVerifyState, owner: Pubkey, now: u64) -> bool {
    owner.bytes == LOADER_V3_ID && elapsed_ms(state, now) < PROGRAM_VERIFY_THROTTLE_MS
}

/// Whether `step` is how the update of a known program goes on.
pub open spec fn known_program_step(
    state: ProgramVerifyState,
    owner: Pubkey,
    now: u64,
    step: LoadedProgramStep,
) -> bool {
    if owner.bytes == LOADER_V2_ID {
        step is Done
    } else if owner.bytes != LOADER_V3_ID {
        step is Reload
    } else if is_throttled(state, owner, now) {
        if state.deferred_verify {
            step is Done
        } else {
            step == LoadedProgramStep::Defer {
                delay_ms: (PROGRAM_VERIFY_THROTTLE_MS - elapsed_ms(state, now)
                    + DEFERRED_VERIFY_MARGIN_MS) as u64,
            }
        }
    } else {
        match state.programdata_header {
            None => step is Reload,
            Some(header) => step matches LoadedProgramStep::CheckHeader { loaded_header }
                && loaded_header@ == header@,
        }
    }
}

/// Tells how an update of a program goes on, by what is remembered of it. A program that is
/// not remembered, or that the bank no longer has, is loaded anew. While the throttle holds,
/// the first update puts a look off and the others need nothing.
pub fn resolve_update_for_loaded_program(
    cache: &mut LruMap<ProgramVerifyState>,
    pubkey: &Pubkey,
    in_bank: bool,
    owner: &Pubkey,
    now: u64,
) -> (r: LoadedProgramStep)
    requires
        old(cache).wf(),
    ensures
        final(cache).wf(),
        final(cache).capacity() == old(cache).capacity(),
        match old(cache).value(*pubkey) {
            None => r is Reload && final(cache).entries() == old(cache).entries(),
            Some(state) => if !in_bank {
                r is Reload && final(cache).entries() == without(
                    old(cache).entries(),
                    pubkey.bytes,
                )
            } else {
                &&& known_program_step(state, *owner, now, r)
                &&& final(cache).entries() == if is_throttled(state, *owner, now)
                    && !state.deferred_verify {
                    pushed(
                        old(cache).entries(),
                        old(cache).capacity(),
                        pubkey.bytes,
                        (ProgramVerifyState { deferred_verify: true, ..state }),
                    )
                } else {
                    promoted(old(cache).entries(), pubkey.bytes)
                }
            },
        },
{
    let ghost before = *cache;
    if !in_bank {
        cache.pop(pubkey);
        return LoadedProgramStep::Reload;
    }
    let throttled = match cache.peek(pubkey) {
        None => {
            return LoadedProgramStep::Reload;
        },
        Some(state) => {
            let elapsed: u64 = if now >= state.verified_at {
                now - state.verified_at
            } else {
                0
            };
            if owner.is(&LOADER_V3_ID) && elapsed < PROGRAM_VERIFY_THROTTLE_MS {
                Some((elapsed, state.deferred_verify))
            } else {
                None
            }
        },
    };
    match throttled {
        Some((elapsed, already)) => {
            if already {
                cache.touch(pubkey);
                return LoadedProgramStep::Done;
            }
            if let Some(state) = cache.pop(pubkey) {
                let mut state = state;
                state.deferred_verify = true;
                cache.push(*pubkey, state);
                proof {
                    before.lemma_wf();
                    lemma_position(before.entries(), pubkey.bytes);
                    lemma_popped(before.entries(), pubkey.bytes);
                    assert(cache.entries() =~= pushed(
                        before.entries(),
                        before.capacity(),
                        pubkey.bytes,
                        state,
                    ));
                }
            }
            LoadedProgramStep::Defer {
                delay_ms: PROGRAM_VERIFY_THROTTLE_MS - elapsed + DEFERRED_VERIFY_MARGIN_MS,
            }
        },
        None => {
            cache.touch(pubkey);
            if owner.is(&LOADER_V2_ID) {
                return LoadedProgramStep::Done;
            }
            if !owner.is(&LOADER_V3_ID) {
                return LoadedProgramStep::Reload;
            }
            proof {
                before.lemma_wf();
                lemma_promoted_front(before.entries(), pubkey.bytes);
            }
            match cache.peek(pubkey) {
                Some(state) => match &state.programdata_header {
                    Some(header) => LoadedProgramStep::CheckHeader {
                        loaded_header: copy_bytes(header.as_slice()),
                    },
                    None => LoadedProgramStep::Reload,
                },
                None => LoadedProgramStep::Reload,
            }
        },
    }
}

/// After its entry was taken out, a key has none.
proof fn lemma_popped<T>(entries: Seq<([u8; 32], T)>, key: [u8; 32])
    requires
        keys_distinct(entries),
        holds(entries, key),
    ensures
        !holds(without(entries, key), key),
        without(entries, key).len() == entries.len() - 1,
{
    let rest = without(entries, key);
    let p = position(entries, key);
    lemma_position(entries, key);
    lemma_position(rest, key);
    if holds(rest, key) {
        let k = position(rest, key);
        let q = if k < p {
            k
        } else {
            k + 1
        };
        assert(entries[q] == rest[k]);
        assert(entries[p].0 == entries[q].0);
    }
}

/// Moving an entry to the front keeps its value.
proof fn lemma_promoted_front<T>(entries: Seq<([u8; 32], T)>, key: [u8; 32])
    requires
        keys_distinct(entries),
    ensures
        value_of(promoted(entries, key), key) == value_of(entries, key),
{
    lemma_position(entries, key);
    reveal_with_fuel(position, 2);
}

/// A program's header: the bytes before its code, if there are enough.
pub fn programdata_header(data: &Vec<u8>) -> (r: Option<Vec<u8>>)
    ensures
        r is Some <==> data@.len() >= PROGRAMDATA_HEADER_LEN,
        r matches Some(header) ==> header@ == data@.take(PROGRAMDATA_HEADER_LEN as int),
{
    if data.len() < PROGRAMDATA_HEADER_LEN {
        return None;
    }
    let part = slice_subrange(data.as_slice(), 0, PROGRAMDATA_HEADER_LEN);
    assert(part@ =~= data@.take(PROGRAMDATA_HEADER_LEN as int));
    Some(copy_bytes(part))
}

/// The part of a fetched header that is compared.
pub open spec fn compared_part(fetched: Seq<u8>) -> Seq<u8> {
    if fetched.len() >= PROGRAMDATA_HEADER_LEN {
        fetched.take(PROGRAMDATA_HEADER_LEN as int)
    } else {
        fetched
    }
}

/// Whether the header on chain is the one that the program was loaded with; then the program
/// counts as looked at now. Otherwise it was upgraded, changed hands or was closed.
pub fn header_is_unchanged(
    cache: &mut LruMap<ProgramVerifyState>,
    pubkey: &Pubkey,
    fetched: &Option<Vec<u8>>,
    loaded_header: &Vec<u8>,
    now: u64,
) -> (r: bool)
    requires
        old(cache).wf(),
    ensures
        final(cache).wf(),
        final(cache).capacity() == old(cache).capacity(),
        r == (*fetched matches Some(header) && compared_part(header@) == loaded_header@),
        final(cache).entries() == match old(cache).value(*pubkey) {
            Some(state) => if r {
                pushed(
                    old(cache).entries(),
                    old(cache).capacity(),
                    pubkey.bytes,
                    (ProgramVerifyState { verified_at: now, ..state }),
                )
            } else {
                old(cache).entries()
            },
            None => old(cache).entries(),
        },
{
    let ghost before = *cache;
    let same = match fetched {
        None => false,
        Some(header) => {
            let part = if header.len() >= PROGRAMDATA_HEADER_LEN {
                slice_subrange(header.as_slice(), 0, PROGRAMDATA_HEADER_LEN)
            } else {
                header.as_slice()
            };
            assert(part@ =~= compared_part(header@));
            same_bytes(part, loaded_header.as_slice())
        },
    };
    if same {
        if let Some(state) = cache.pop(pubkey) {
            let mut state = state;
            state.verified_at = now;
            cache.push(*pubkey, state);
            proof {
                before.lemma_wf();
                lemma_popped(before.entries(), pubkey.bytes);
                assert(cache.entries() =~= pushed(
                    before.entries(),
                    before.capacity(),
                    pubkey.bytes,
                    state,
                ));
            }
        }
    }
    same
}

/// Notes that a look that was put off is taken now.
pub fn deferred_verify_due(cache: &mut LruMap<ProgramVerifyState>, pubkey: &Pubkey)
    requires
        old(cache).wf(),
    ensures
        final(cache).wf(),
        final(cache).capacity() == old(cache).capacity(),
        final(cache).entries() == match old(cache).value(*pubkey) {
            Some(state) => pushed(
                old(cache).entries(),
                old(cache).capacity(),
                pubkey.bytes,
                (ProgramVerifyState { deferred_verify: false, ..state }),
            ),
            None => old(cache).entries(),
        },
{
    let ghost before = *cache;
    if let Some(state) = cache.pop(pubkey) {
        let mut state = state;
        state.deferred_verify = false;
        cache.push(*pubkey, state);
        proof {
            before.lemma_wf();
            lemma_popped(before.entries(), pubkey.bytes);
            assert(cache.entries() =~= pushed(
                before.entries(),
                before.capacity(),
                pubkey.bytes,
                state,
            ));
        }
    }
}

/// Remembers a program that was loaded. Its header only matters if its code is in another
/// account.
pub fn remember_program(
    cache: &mut LruMap<ProgramVerifyState>,
    pubkey: Pubkey,
    of_loader_v3: bool,
    header: Option<Vec<u8>>,
    now: u64,
)
    requires
        old(cache).wf(),
    ensures
        final(cache).wf(),
        final(cache).capacity() == old(cache).capacity(),
        final(cache).entries() == pushed(
            old(cache).entries(),
            old(cache).capacity(),
            pubkey.bytes,
            (ProgramVerifyState {
                programdata_header: if of_loader_v3 {
                    header
                } else {
                    None
                },
                verified_at: now,
                deferred_verify: false,
            }),
        ),
{
    let programdata_header = if of_loader_v3 {
        header
    } else {
        None
    };
    cache.push(
        pubkey,
        ProgramVerifyState { programdata_header, verified_at: now, deferred_verify: false },
    );
}

/// An update that comes while the throttle holds is never lost: a look is put off because of
/// it, or one was put off before and is still due.
pub proof fn law_throttled_updates_are_not_lost(
    cache: LruMap<ProgramVerifyState>,
    pubkey: Pubkey,
    owner: Pubkey,
    now: u64,
    step: LoadedProgramStep,
)
    requires
        cache.wf(),
        cache.value(pubkey) is Some,
        is_throttled(cache.value(pubkey)->0, owner, now),
        owner.bytes != LOADER_V2_ID,
        known_program_step(cache.value(pubkey)->0, owner, now, step),
    ensures
        ({
            let state = cache.value(pubkey)->0;
            &&& step is Defer || (step is Done && state.deferred_verify)
            &&& step is Defer ==> value_of(
                pushed(
                    cache.entries(),
                    cache.capacity(),
                    pubkey.bytes,
                    (ProgramVerifyState { deferred_verify: true, ..state }),
                ),
                pubkey.bytes,
            ) == Some(ProgramVerifyState { deferred_verify: true, ..state })
        }),
{
    cache.lemma_wf();
    lemma_pushed_value(
        cache.entries(),
        cache.capacity(),
        pubkey.bytes,
        (ProgramVerifyState { deferred_verify: true, ..cache.value(pubkey)->0 }),
        pubkey.bytes,
    );
}

} // verus!
