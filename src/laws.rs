use vstd::bytes::{lemma_auto_spec_u64_to_from_le_bytes, spec_u64_to_le_bytes};
use vstd::prelude::*;

use crate::error::LookupTableError;
use crate::processor::{
    close_post, close_precheck_error, create_error, create_post, deactivate_error,
    deactivate_post, deactivated_data, extend_error, extend_post, extend_precheck_error,
    extended_count, extended_data,
    freeze_error, freeze_post, frozen_data, required_balance, stamped_header,
    table_access_error, table_len, unchanged, AccountState, HostAction,
};
use crate::slot_hashes::{lists_slot, slots_descending};
use crate::state::{
    authority_of, authority_state_of, deactivation_slot_of, entry_count_of, has_header,
    is_deactivating, is_frozen, last_extended_slot_of, new_header, start_index_of,
    ACTIVE_DEACTIVATION_SLOT, LOOKUP_TABLE_MAX_ADDRESSES, LOOKUP_TABLE_META_SIZE,
};

verus! {

/// The fields of a freshly written header: active, never extended, mutable
/// by `authority`, with no addresses.
pub proof fn lemma_new_header_fields(authority: Seq<u8>)
    requires
        authority.len() == 32,
    ensures
        has_header(new_header(authority)),
        new_header(authority).len() == LOOKUP_TABLE_META_SIZE,
        entry_count_of(new_header(authority)) == 0,
        deactivation_slot_of(new_header(authority)) == ACTIVE_DEACTIVATION_SLOT,
        last_extended_slot_of(new_header(authority)) == 0,
        start_index_of(new_header(authority)) == 0,
        authority_state_of(new_header(authority)) == Some(authority),
{
    lemma_auto_spec_u64_to_from_le_bytes();
    let h = new_header(authority);
    let a = spec_u64_to_le_bytes(ACTIVE_DEACTIVATION_SLOT);
    let b = spec_u64_to_le_bytes(0);
    assert(h.subrange(4, 12) =~= a);
    assert(h.subrange(12, 20) =~= b);
    assert(h[21] == 1u8);
    assert(h.subrange(22, 54) =~= authority);
}

/// A Create that succeeded can be repeated: the same Create on the accounts
/// it left succeeds again, changes nothing and asks the host for nothing. The
/// first one wrote a fresh header for the given authority.
pub proof fn lemma_create_idempotent(
    program_id: Seq<u8>,
    authority: AccountState,
    slot_hashes: AccountState,
    recent_slot: u64,
    derived_table_key: Option<[u8; 32]>,
    minimum_balance: u64,
    t0: AccountState,
    p0: AccountState,
    t1: AccountState,
    p1: AccountState,
    r1: Result<HostAction, LookupTableError>,
    t2: AccountState,
    p2: AccountState,
    r2: Result<HostAction, LookupTableError>,
)
    requires
        create_post(
            program_id,
            authority,
            slot_hashes,
            recent_slot,
            derived_table_key,
            minimum_balance,
            t0,
            p0,
            t1,
            p1,
            r1,
        ),
        r1 is Ok,
        create_post(
            program_id,
            authority,
            slot_hashes,
            recent_slot,
            derived_table_key,
            minimum_balance,
            t1,
            p1,
            t2,
            p2,
            r2,
        ),
    ensures
        t1.owner@ == program_id,
        r2 == Ok::<HostAction, LookupTableError>(HostAction::NoAction),
        unchanged(t2, t1),
        unchanged(p2, p1),
        t0.owner@ != program_id ==> t1.data@ == new_header(authority.key@),
{
}

/// Create fails whenever the slot history does not list the given slot,
/// whatever the derived address.
pub proof fn lemma_create_needs_recent_slot(
    program_id: Seq<u8>,
    authority: AccountState,
    slot_hashes: AccountState,
    recent_slot: u64,
    derived_table_key: Option<[u8; 32]>,
    minimum_balance: u64,
    t0: AccountState,
    p0: AccountState,
    t1: AccountState,
    p1: AccountState,
    r: Result<HostAction, LookupTableError>,
)
    requires
        create_post(
            program_id,
            authority,
            slot_hashes,
            recent_slot,
            derived_table_key,
            minimum_balance,
            t0,
            p0,
            t1,
            p1,
            r,
        ),
        !lists_slot(slot_hashes.data@, recent_slot),
    ensures
        r is Err,
        unchanged(t1, t0),
        unchanged(p1, p0),
{
    assert(create_error(
        program_id,
        t0,
        p0,
        slot_hashes,
        recent_slot,
        derived_table_key,
        minimum_balance,
    ) is Some);
}

/// Freezing is final: the authority reads as zero, and every later Extend,
/// Deactivate or Freeze fails, with `Immutable` once the table's owner and
/// the signature are in order.
pub proof fn lemma_freeze_is_final(
    program_id: Seq<u8>,
    authority: AccountState,
    t0: AccountState,
    t1: AccountState,
    r: Result<(), LookupTableError>,
    later_authority: AccountState,
    payer: AccountState,
    new_addresses: Seq<u8>,
    minimum_balance: u64,
)
    requires
        freeze_post(program_id, authority, t0, t1, r),
        r is Ok,
    ensures
        is_frozen(t1.data@),
        authority_of(t1.data@) == Seq::new(32, |i: int| 0u8),
        authority_state_of(t1.data@) is None,
        extend_error(program_id, t1, later_authority, payer, new_addresses, minimum_balance) is Some,
        deactivate_error(program_id, t1, later_authority) is Some,
        freeze_error(program_id, t1, later_authority) is Some,
        table_access_error(program_id, t1, later_authority) is None ==> {
            &&& extend_error(program_id, t1, later_authority, payer, new_addresses, minimum_balance)
                == Some(LookupTableError::Immutable)
            &&& deactivate_error(program_id, t1, later_authority) == Some(LookupTableError::Immutable)
            &&& freeze_error(program_id, t1, later_authority) == Some(LookupTableError::Immutable)
        },
{
    let d = t0.data@;
    let f = frozen_data(d);
    assert(f[21] == 0u8);
    assert(f.subrange(22, 54) =~= Seq::new(32, |i: int| 0u8));
}

/// Freeze fails on a table with no addresses and on one that is
/// deactivating.
pub proof fn lemma_freeze_needs_entries_and_active(
    program_id: Seq<u8>,
    table: AccountState,
    authority: AccountState,
)
    requires
        has_header(table.data@),
        (table.data@.len() - LOOKUP_TABLE_META_SIZE) % 32 == 0,
    ensures
        entry_count_of(table.data@) == 0 || is_deactivating(table.data@) ==> freeze_error(
            program_id,
            table,
            authority,
        ) is Some,
        table_access_error(program_id, table, authority) is None && !is_frozen(table.data@)
            ==> {
            &&& is_deactivating(table.data@) ==> freeze_error(program_id, table, authority) == Some(
                LookupTableError::InvalidArgument,
            )
            &&& !is_deactivating(table.data@) && entry_count_of(table.data@) == 0 ==> freeze_error(
                program_id,
                table,
                authority,
            ) == Some(LookupTableError::InvalidInstructionData)
        },
{
}

/// Extend keeps a table within capacity: after it succeeds the table holds
/// whole addresses, at most `LOOKUP_TABLE_MAX_ADDRESSES` of them; an Extend
/// past capacity fails and leaves the table as it was.
pub proof fn lemma_extend_within_capacity(
    program_id: Seq<u8>,
    authority: AccountState,
    new_addresses: Seq<u8>,
    current_slot: u64,
    minimum_balance: u64,
    t0: AccountState,
    p0: AccountState,
    t1: AccountState,
    p1: AccountState,
    r: Result<HostAction, LookupTableError>,
)
    requires
        extend_post(
            program_id,
            authority,
            new_addresses,
            current_slot,
            minimum_balance,
            t0,
            p0,
            t1,
            p1,
            r,
        ),
    ensures
        r is Ok ==> {
            &&& entry_count_of(t1.data@) == extended_count(t0.data@, new_addresses.len() as int)
            &&& entry_count_of(t1.data@) <= LOOKUP_TABLE_MAX_ADDRESSES
            &&& t1.data@.len() == table_len(entry_count_of(t1.data@))
        },
        extended_count(t0.data@, new_addresses.len() as int) > LOOKUP_TABLE_MAX_ADDRESSES ==> r is Err
            && t1.data@ == t0.data@ && t1.lamports == t0.lamports,
{
    if r is Ok {
        lemma_auto_spec_u64_to_from_le_bytes();
        let d = t0.data@;
        let c = entry_count_of(d);
        let k = new_addresses.len() / 32;
        assert(stamped_header(d, current_slot).len() == LOOKUP_TABLE_META_SIZE);
        assert(new_addresses.len() == 32 * k);
        assert(extended_data(d, new_addresses, current_slot).len() == 56 + 32 * c + 32 * k);
        assert((32 * c + 32 * k) / 32 == c + k) by (nonlinear_arith);
    }
}

/// Extend moves balance to the table exactly when the table holds less
/// than the rent-exempt minimum of its new length, and then exactly the
/// difference. Once the table's own checks pass, a short table needs the
/// payer's signature, and a signing payer who can cover the difference pays
/// it; a table that is already funded takes nothing from the payer, who then
/// need not sign.
pub proof fn lemma_extend_top_up(
    program_id: Seq<u8>,
    authority: AccountState,
    new_addresses: Seq<u8>,
    current_slot: u64,
    minimum_balance: u64,
    t0: AccountState,
    p0: AccountState,
    t1: AccountState,
    p1: AccountState,
    r: Result<HostAction, LookupTableError>,
)
    requires
        extend_post(
            program_id,
            authority,
            new_addresses,
            current_slot,
            minimum_balance,
            t0,
            p0,
            t1,
            p1,
            r,
        ),
    ensures
        r is Ok ==> ((r matches Ok(HostAction::Transfer { .. })) <==> t0.lamports
            < required_balance(minimum_balance)),
        r is Ok ==> (r == Ok::<HostAction, LookupTableError>(HostAction::NoAction) <==> t0.lamports
            >= required_balance(minimum_balance)),
        r matches Ok(HostAction::Transfer { lamports }) ==> t0.lamports + lamports
            == required_balance(minimum_balance) && t1.lamports == required_balance(
            minimum_balance,
        ) && p1.lamports == p0.lamports - lamports,
        r == Ok::<HostAction, LookupTableError>(HostAction::NoAction) ==> t1.lamports == t0.lamports
            && p1.lamports == p0.lamports,
        extend_precheck_error(program_id, t0, authority, new_addresses) is None && t0.lamports
            < required_balance(minimum_balance) ==> {
            &&& !p0.is_signer ==> r == Err::<HostAction, LookupTableError>(
                LookupTableError::MissingRequiredSignature,
            ) && unchanged(t1, t0) && unchanged(p1, p0)
            &&& p0.is_signer && p0.lamports >= required_balance(minimum_balance) - t0.lamports ==> r
                == Ok::<HostAction, LookupTableError>(
                HostAction::Transfer { lamports: (required_balance(minimum_balance) - t0.lamports) as u64 },
            ) && t1.lamports == required_balance(minimum_balance)
        },
        extend_precheck_error(program_id, t0, authority, new_addresses) is None && t0.lamports
            >= required_balance(minimum_balance) ==> r == Ok::<HostAction, LookupTableError>(
            HostAction::NoAction,
        ) && t1.lamports == t0.lamports && unchanged(p1, p0),
{
}

/// Deactivation records the clock's slot and cannot be repeated.
pub proof fn lemma_deactivate_once(
    program_id: Seq<u8>,
    authority: AccountState,
    current_slot: u64,
    t0: AccountState,
    t1: AccountState,
    r: Result<(), LookupTableError>,
    later_authority: AccountState,
)
    requires
        deactivate_post(program_id, authority, current_slot, t0, t1, r),
        r is Ok,
        current_slot != ACTIVE_DEACTIVATION_SLOT,
    ensures
        deactivation_slot_of(t1.data@) == current_slot,
        is_deactivating(t1.data@),
        deactivate_error(program_id, t1, later_authority) is Some,
{
    lemma_auto_spec_u64_to_from_le_bytes();
    let d = t0.data@;
    assert(deactivated_data(d, current_slot).subrange(4, 12) =~= spec_u64_to_le_bytes(
        current_slot,
    ));
}

/// Close waits out the deactivation: it fails in the slot of deactivation
/// and while the (newest-first) slot history lists that slot, and once the
/// newest-first history no longer lists it, with the other checks passed, it succeeds,
/// moving the table's whole balance to the recipient and leaving the table
/// empty with no balance.
pub proof fn lemma_close_timing(
    program_id: Seq<u8>,
    authority: AccountState,
    slot_hashes: AccountState,
    current_slot: u64,
    t0: AccountState,
    c0: AccountState,
    t1: AccountState,
    c1: AccountState,
    r: Result<(), LookupTableError>,
)
    requires
        close_post(program_id, authority, slot_hashes, current_slot, t0, c0, t1, c1, r),
    ensures
        deactivation_slot_of(t0.data@) == current_slot ==> r is Err,
        slots_descending(slot_hashes.data@) && lists_slot(
            slot_hashes.data@,
            deactivation_slot_of(t0.data@),
        ) ==> r is Err,
        close_precheck_error(program_id, t0, authority, c0, slot_hashes, current_slot) is None
            && slots_descending(slot_hashes.data@) && !lists_slot(slot_hashes.data@, deactivation_slot_of(t0.data@)) && t0.lamports
            + c0.lamports <= u64::MAX && c0.is_writable && t0.is_writable ==> {
            &&& r is Ok
            &&& t1.data@.len() == 0
            &&& t1.lamports == 0
            &&& c1.lamports == t0.lamports + c0.lamports
        },
{
}

} // verus!
