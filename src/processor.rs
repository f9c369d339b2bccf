use vstd::bytes::spec_u64_to_le_bytes;
use vstd::prelude::*;

use crate::error::LookupTableError;
use crate::slot_hashes::{
    is_recent_slot, lists_slot, slot_hash_position_of, slot_hashes_valid, slot_position,
    slots_descending,
    SLOT_HASHES_ID,
};
use crate::state::{
    authority_matches, authority_of, copy_into, entry_count_of, has_header, is_deactivating,
    is_frozen, last_extended_slot_of, new_header, read_deactivation_slot, read_last_extended_slot,
    deactivation_slot_of, serialize_new_lookup_table, write_deactivation_slot, write_frozen,
    write_last_extended, Pubkey, ACTIVE_DEACTIVATION_SLOT,
    LOOKUP_TABLE_MAX_ADDRESSES, LOOKUP_TABLE_META_SIZE, PUBKEY_BYTES,
};

verus! {

/// What the program sees of one account for the length of an instruction.
pub struct AccountState {
    pub key: Pubkey,
    pub owner: Pubkey,
    pub lamports: u64,
    pub data: Vec<u8>,
    pub is_signer: bool,
    pub is_writable: bool,
}

/// A system-program call that the host performs on the program's behalf.
/// Its effect on the accounts is already applied to the `AccountState`s.
#[derive(Clone, Copy, Debug, PartialEq, Eq, Structural)]
pub enum HostAction {
    NoAction,
    /// Fund `lamports`, allocate `space` bytes and assign the table to the program.
    CreateAccount { lamports: u64, space: u64 },
    /// Move `lamports` from the payer to the table.
    Transfer { lamports: u64 },
}

// ---------------------------------------------------------------------------
// Relations between an account before and after an instruction.
pub open spec fn unchanged(a: AccountState, b: AccountState) -> bool {
    &&& a.key == b.key
    &&& a.owner == b.owner
    &&& a.lamports == b.lamports
    &&& a.data@ == b.data@
    &&& a.is_signer == b.is_signer
    &&& a.is_writable == b.is_writable
}

/// `b` is `a` with new data and lamports.
pub open spec fn updated(a: AccountState, b: AccountState, data: Seq<u8>, lamports: u64) -> bool {
    &&& a.key == b.key
    &&& a.owner == b.owner
    &&& b.lamports == lamports
    &&& b.data@ == data
    &&& a.is_signer == b.is_signer
    &&& a.is_writable == b.is_writable
}

/// The balance a table must hold: the rent-exempt minimum, and at least one.
pub open spec fn required_balance(minimum: u64) -> u64 {
    if minimum == 0 {
        1
    } else {
        minimum
    }
}

/// The balance that still has to reach an account holding `lamports` for it
/// to hold the rent-exempt `minimum` (and at least one lamport).
pub open spec fn shortfall(minimum: u64, lamports: u64) -> u64 {
    let need = required_balance(minimum);
    if lamports >= need {
        0
    } else {
        (need - lamports) as u64
    }
}

/// The checks that every instruction but Create makes first, in order.
pub open spec fn table_access_error(
    program_id: Seq<u8>,
    table: AccountState,
    authority: AccountState,
) -> Option<LookupTableError> {
    if table.owner@ != program_id {
        Some(LookupTableError::InvalidAccountOwner)
    } else if !authority.is_signer {
        Some(LookupTableError::MissingRequiredSignature)
    } else if !has_header(table.data@) {
        Some(LookupTableError::AccountDataTooSmall)
    } else {
        None
    }
}

/// Mutable tables whose authority is the signer.
pub open spec fn mutation_error(table: AccountState, authority: AccountState) -> Option<
    LookupTableError,
> {
    if is_frozen(table.data@) {
        Some(LookupTableError::Immutable)
    } else if authority_of(table.data@) != authority.key@ {
        Some(LookupTableError::IncorrectAuthority)
    } else {
        None
    }
}

pub open spec fn as_result<T>(e: Option<LookupTableError>, ok: T) -> Result<T, LookupTableError> {
    match e {
        Some(e) => Err(e),
        None => Ok(ok),
    }
}

fn shortfall_of(minimum: u64, lamports: u64) -> (r: u64)
    ensures
        r == shortfall(minimum, lamports),
{
    let need = if minimum == 0 {
        1
    } else {
        minimum
    };
    need.saturating_sub(lamports)
}

fn check_table_access(program_id: &Pubkey, table: &AccountState, authority: &AccountState) -> (r:
    Result<(), LookupTableError>)
    ensures
        r == as_result(table_access_error(program_id@, *table, *authority), ()),
{
    if !keys_equal(&table.owner, program_id) {
        return Err(LookupTableError::InvalidAccountOwner);
    }
    if !authority.is_signer {
        return Err(LookupTableError::MissingRequiredSignature);
    }
    if table.data.len() < LOOKUP_TABLE_META_SIZE {
        return Err(LookupTableError::AccountDataTooSmall);
    }
    Ok(())
}

fn check_mutation(table: &AccountState, authority: &AccountState) -> (r: Result<
    (),
    LookupTableError,
>)
    requires
        has_header(table.data@),
    ensures
        r == as_result(mutation_error(*table, *authority), ()),
{
    if table.data[21] == 0 {
        return Err(LookupTableError::Immutable);
    }
    if !authority_matches(table.data.as_slice(), &authority.key) {
        return Err(LookupTableError::IncorrectAuthority);
    }
    Ok(())
}

/// Byte-wise equality of two addresses.
pub fn keys_equal(a: &Pubkey, b: &Pubkey) -> (r: bool)
    ensures
        r == (a@ == b@),
{
    let mut k: usize = 0;
    while k < 32
        invariant
            0 <= k <= 32,
            a@.len() == 32,
            b@.len() == 32,
            forall|j: int| 0 <= j < k ==> a@[j] == b@[j],
        decreases 32 - k,
    {
        if a[k] != b[k] {
            return false;
        }
        k = k + 1;
    }
    assert(a@ =~= b@);
    true
}

// ---------------------------------------------------------------------------
// Create
pub open spec fn create_error(
    program_id: Seq<u8>,
    table: AccountState,
    payer: AccountState,
    slot_hashes: AccountState,
    recent_slot: u64,
    derived_table_key: Option<Pubkey>,
    minimum_balance: u64,
) -> Option<LookupTableError> {
    if !payer.is_signer {
        Some(LookupTableError::MissingRequiredSignature)
    } else if slot_hashes.key@ != SLOT_HASHES_ID@ {
        Some(LookupTableError::InvalidArgument)
    } else if !slot_hashes_valid(slot_hashes.data@) {
        Some(LookupTableError::AccountDataTooSmall)
    } else if !lists_slot(slot_hashes.data@, recent_slot) {
        Some(LookupTableError::InvalidInstructionData)
    } else if derived_table_key is None {
        Some(LookupTableError::InvalidSeeds)
    } else if derived_table_key->0@ != table.key@ {
        Some(LookupTableError::InvalidArgument)
    } else if table.owner@ == program_id {
        None
    } else if payer.lamports < shortfall(minimum_balance, table.lamports) {
        Some(LookupTableError::InsufficientFunds)
    } else {
        None
    }
}

/// The outcome of Create, from the accounts before (`t0`, `p0`) to the
/// accounts after (`t1`, `p1`).
pub open spec fn create_post(
    program_id: Seq<u8>,
    authority: AccountState,
    slot_hashes: AccountState,
    recent_slot: u64,
    derived_table_key: Option<Pubkey>,
    minimum_balance: u64,
    t0: AccountState,
    p0: AccountState,
    t1: AccountState,
    p1: AccountState,
    r: Result<HostAction, LookupTableError>,
) -> bool {
    let amount = shortfall(minimum_balance, t0.lamports);
    let owned = t0.owner@ == program_id;
    &&& r == as_result(
        create_error(program_id, t0, p0, slot_hashes, recent_slot, derived_table_key, minimum_balance),
        if owned {
            HostAction::NoAction
        } else {
            HostAction::CreateAccount { lamports: amount, space: LOOKUP_TABLE_META_SIZE as u64 }
        },
    )
    &&& (r is Err || owned) ==> unchanged(t1, t0) && unchanged(p1, p0)
    &&& (r is Ok && !owned) ==> {
        &&& t1.key == t0.key
        &&& t1.owner@ == program_id
        &&& t1.lamports == t0.lamports + amount
        &&& t1.data@ == new_header(authority.key@)
        &&& t1.is_signer == t0.is_signer
        &&& t1.is_writable == t0.is_writable
        &&& updated(p0, p1, p0.data@, (p0.lamports - amount) as u64)
    }
}

/// Creates the table at the address derived from the authority, a recent
/// slot and a bump seed.
///
/// `derived_table_key` is that derived address under `program_id` (seeds: the
/// authority's key, the slot as 8 little-endian bytes, the bump), `None` when
/// no address exists for the bump; `minimum_balance` is the rent-exempt
/// minimum of a header-only table. A table that the program already owns is
/// left as it is. Otherwise the payer funds the table up to that minimum, the
/// table gets a header of its own and the program becomes its owner.
pub fn process_create_lookup_table(
    program_id: &Pubkey,
    table: &mut AccountState,
    authority: &AccountState,
    payer: &mut AccountState,
    slot_hashes: &AccountState,
    untrusted_recent_slot: u64,
    derived_table_key: Option<Pubkey>,
    minimum_balance: u64,
) -> (r: Result<HostAction, LookupTableError>)
    ensures
        create_post(
            program_id@,
            *authority,
            *slot_hashes,
            untrusted_recent_slot,
            derived_table_key,
            minimum_balance,
            *old(table),
            *old(payer),
            *final(table),
            *final(payer),
            r,
        ),
{
    if !payer.is_signer {
        return Err(LookupTableError::MissingRequiredSignature);
    }
    if !keys_equal(&slot_hashes.key, &SLOT_HASHES_ID) {
        return Err(LookupTableError::InvalidArgument);
    }
    match is_recent_slot(slot_hashes.data.as_slice(), untrusted_recent_slot) {
        None => return Err(LookupTableError::AccountDataTooSmall),
        Some(false) => return Err(LookupTableError::InvalidInstructionData),
        Some(true) => {},
    }
    let derived = match derived_table_key {
        Some(k) => k,
        None => return Err(LookupTableError::InvalidSeeds),
    };
    if !keys_equal(&table.key, &derived) {
        return Err(LookupTableError::InvalidArgument);
    }
    if keys_equal(&table.owner, program_id) {
        return Ok(HostAction::NoAction);
    }
    let amount = shortfall_of(minimum_balance, table.lamports);
    if payer.lamports < amount {
        return Err(LookupTableError::InsufficientFunds);
    }
    payer.lamports = payer.lamports - amount;
    table.lamports = table.lamports + amount;
    table.owner = *program_id;
    let mut data: Vec<u8> = vec![0u8; LOOKUP_TABLE_META_SIZE];
    let written = serialize_new_lookup_table(data.as_mut_slice(), &authority.key);
    assert(written is Ok);
    assert(data@ =~= new_header(authority.key@));
    table.data = data;
    Ok(HostAction::CreateAccount { lamports: amount, space: LOOKUP_TABLE_META_SIZE as u64 })
}

// ---------------------------------------------------------------------------
// Extend
/// Data length of a table holding `count` addresses.
pub open spec fn table_len(count: int) -> int {
    LOOKUP_TABLE_META_SIZE + PUBKEY_BYTES * count
}

/// Entries that a table holds after taking `new_len` more bytes of addresses.
pub open spec fn extended_count(d: Seq<u8>, new_len: int) -> int {
    entry_count_of(d) + new_len / (PUBKEY_BYTES as int)
}

/// The checks of Extend that come before the rent top-up, in order.
pub open spec fn extend_precheck_error(
    program_id: Seq<u8>,
    table: AccountState,
    authority: AccountState,
    new_addresses: Seq<u8>,
) -> Option<LookupTableError> {
    let d = table.data@;
    if table_access_error(program_id, table, authority) is Some {
        table_access_error(program_id, table, authority)
    } else if mutation_error(table, authority) is Some {
        mutation_error(table, authority)
    } else if is_deactivating(d) {
        Some(LookupTableError::InvalidArgument)
    } else if entry_count_of(d) >= LOOKUP_TABLE_MAX_ADDRESSES {
        Some(LookupTableError::InvalidArgument)
    } else if new_addresses.len() == 0 || new_addresses.len() % (PUBKEY_BYTES as nat) != 0 {
        Some(LookupTableError::InvalidInstructionData)
    } else if extended_count(d, new_addresses.len() as int) > LOOKUP_TABLE_MAX_ADDRESSES {
        Some(LookupTableError::InvalidInstructionData)
    } else if !table.is_writable {
        Some(LookupTableError::Immutable)
    } else {
        None
    }
}

pub open spec fn extend_error(
    program_id: Seq<u8>,
    table: AccountState,
    authority: AccountState,
    payer: AccountState,
    new_addresses: Seq<u8>,
    minimum_balance: u64,
) -> Option<LookupTableError> {
    let amount = shortfall(minimum_balance, table.lamports);
    let pre = extend_precheck_error(program_id, table, authority, new_addresses);
    if pre is Some {
        pre
    } else if amount > 0 && !payer.is_signer {
        Some(LookupTableError::MissingRequiredSignature)
    } else if payer.lamports < amount {
        Some(LookupTableError::InsufficientFunds)
    } else {
        None
    }
}

/// The header with its growth marker moved to `current_slot`, unless the
/// last growth already happened in that slot.
pub open spec fn stamped_header(d: Seq<u8>, current_slot: u64) -> Seq<u8> {
    if last_extended_slot_of(d) == current_slot {
        d.subrange(0, LOOKUP_TABLE_META_SIZE as int)
    } else {
        d.subrange(0, 12) + spec_u64_to_le_bytes(current_slot) + seq![entry_count_of(d) as u8]
            + d.subrange(21, LOOKUP_TABLE_META_SIZE as int)
    }
}

/// The data of a table after it takes `new_addresses` in `current_slot`.
pub open spec fn extended_data(d: Seq<u8>, new_addresses: Seq<u8>, current_slot: u64) -> Seq<u8> {
    stamped_header(d, current_slot) + d.subrange(
        LOOKUP_TABLE_META_SIZE as int,
        table_len(entry_count_of(d)),
    ) + new_addresses
}

/// The data length that a table of `current_data_len` bytes reaches when it
/// takes `new_addresses_len` more bytes of addresses, when that stays within
/// capacity.
pub fn extended_table_data_len(current_data_len: usize, new_addresses_len: usize) -> (r: Option<
    usize,
>)
    ensures
        r is Some <==> current_data_len >= LOOKUP_TABLE_META_SIZE && (current_data_len
            - LOOKUP_TABLE_META_SIZE) / 32 + new_addresses_len / 32 <= LOOKUP_TABLE_MAX_ADDRESSES,
        r matches Some(n) ==> n == table_len(
            (current_data_len - LOOKUP_TABLE_META_SIZE) / 32 + new_addresses_len / 32,
        ),
{
    if current_data_len < LOOKUP_TABLE_META_SIZE {
        return None;
    }
    let old_count = (current_data_len - LOOKUP_TABLE_META_SIZE) / PUBKEY_BYTES;
    let added = new_addresses_len / PUBKEY_BYTES;
    if added > LOOKUP_TABLE_MAX_ADDRESSES || old_count + added > LOOKUP_TABLE_MAX_ADDRESSES {
        return None;
    }
    Some(LOOKUP_TABLE_META_SIZE + PUBKEY_BYTES * (old_count + added))
}

/// The outcome of Extend, from the accounts before (`t0`, `p0`) to the
/// accounts after (`t1`, `p1`).
pub open spec fn extend_post(
    program_id: Seq<u8>,
    authority: AccountState,
    new_addresses: Seq<u8>,
    current_slot: u64,
    minimum_balance: u64,
    t0: AccountState,
    p0: AccountState,
    t1: AccountState,
    p1: AccountState,
    r: Result<HostAction, LookupTableError>,
) -> bool {
    let amount = shortfall(minimum_balance, t0.lamports);
    &&& r == as_result(
        extend_error(program_id, t0, authority, p0, new_addresses, minimum_balance),
        if amount > 0 {
            HostAction::Transfer { lamports: amount }
        } else {
            HostAction::NoAction
        },
    )
    &&& r is Err ==> unchanged(t1, t0) && unchanged(p1, p0)
    &&& r is Ok ==> {
        &&& updated(
            t0,
            t1,
            extended_data(t0.data@, new_addresses, current_slot),
            (t0.lamports + amount) as u64,
        )
        &&& updated(p0, p1, p0.data@, (p0.lamports - amount) as u64)
    }
}

/// Appends `new_addresses` (a whole number of 32-byte addresses, at least
/// one) to a mutable, active table, keeping it within capacity.
///
/// `minimum_balance` is the rent-exempt minimum of the table at its new
/// length (see `extended_table_data_len`); `current_slot` is the clock's slot.
/// The first growth in a slot records that slot and the entry count it
/// started from. When the table's balance falls short of the minimum, the
/// payer, who must then sign, transfers exactly the shortfall.
pub fn process_extend_lookup_table(
    program_id: &Pubkey,
    table: &mut AccountState,
    authority: &AccountState,
    payer: &mut AccountState,
    new_addresses: &[u8],
    current_slot: u64,
    minimum_balance: u64,
) -> (r: Result<HostAction, LookupTableError>)
    ensures
        extend_post(
            program_id@,
            *authority,
            new_addresses@,
            current_slot,
            minimum_balance,
            *old(table),
            *old(payer),
            *final(table),
            *final(payer),
            r,
        ),
{
    check_table_access(program_id, table, authority)?;
    check_mutation(table, authority)?;
    if read_deactivation_slot(table.data.as_slice()) != ACTIVE_DEACTIVATION_SLOT {
        return Err(LookupTableError::InvalidArgument);
    }
    let old_count = (table.data.len() - LOOKUP_TABLE_META_SIZE) / PUBKEY_BYTES;
    if old_count >= LOOKUP_TABLE_MAX_ADDRESSES {
        return Err(LookupTableError::InvalidArgument);
    }
    if new_addresses.len() == 0 || new_addresses.len() % PUBKEY_BYTES != 0 {
        return Err(LookupTableError::InvalidInstructionData);
    }
    let added = new_addresses.len() / PUBKEY_BYTES;
    if added > LOOKUP_TABLE_MAX_ADDRESSES || old_count + added > LOOKUP_TABLE_MAX_ADDRESSES {
        return Err(LookupTableError::InvalidInstructionData);
    }
    if !table.is_writable {
        return Err(LookupTableError::Immutable);
    }
    let amount = shortfall_of(minimum_balance, table.lamports);
    if amount > 0 && !payer.is_signer {
        return Err(LookupTableError::MissingRequiredSignature);
    }
    if payer.lamports < amount {
        return Err(LookupTableError::InsufficientFunds);
    }
    let ghost d = table.data@;
    proof {
        vstd::bytes::lemma_auto_spec_u64_to_from_le_bytes();
    }
    if read_last_extended_slot(table.data.as_slice()) != current_slot {
        write_last_extended(table.data.as_mut_slice(), current_slot, old_count as u8);
    }
    assert(table.data@.subrange(0, LOOKUP_TABLE_META_SIZE as int) =~= stamped_header(
        d,
        current_slot,
    ));
    assert(table.data@.subrange(LOOKUP_TABLE_META_SIZE as int, d.len() as int) =~= d.subrange(
        LOOKUP_TABLE_META_SIZE as int,
        d.len() as int,
    ));
    let offset = LOOKUP_TABLE_META_SIZE + PUBKEY_BYTES * old_count;
    let new_len = offset + new_addresses.len();
    table.data.truncate(offset);
    table.data.resize(new_len, 0u8);
    copy_into(table.data.as_mut_slice(), offset, new_addresses);
    assert(table.data@ =~= extended_data(d, new_addresses@, current_slot));
    payer.lamports = payer.lamports - amount;
    table.lamports = table.lamports + amount;
    if amount > 0 {
        Ok(HostAction::Transfer { lamports: amount })
    } else {
        Ok(HostAction::NoAction)
    }
}

// ---------------------------------------------------------------------------
// Freeze
pub open spec fn freeze_error(program_id: Seq<u8>, table: AccountState, authority: AccountState) -> Option<
    LookupTableError,
> {
    let d = table.data@;
    if table_access_error(program_id, table, authority) is Some {
        table_access_error(program_id, table, authority)
    } else if is_frozen(d) {
        Some(LookupTableError::Immutable)
    } else if is_deactivating(d) {
        Some(LookupTableError::InvalidArgument)
    } else if d.len() <= LOOKUP_TABLE_META_SIZE {
        Some(LookupTableError::InvalidInstructionData)
    } else if authority_of(d) != authority.key@ {
        Some(LookupTableError::IncorrectAuthority)
    } else {
        None
    }
}

/// The data of a table after its authority is removed.
pub open spec fn frozen_data(d: Seq<u8>) -> Seq<u8> {
    d.subrange(0, 21) + seq![0u8] + Seq::new(32, |i: int| 0u8) + d.subrange(54, d.len() as int)
}

/// The outcome of Freeze, from the table before (`t0`) to after (`t1`).
pub open spec fn freeze_post(
    program_id: Seq<u8>,
    authority: AccountState,
    t0: AccountState,
    t1: AccountState,
    r: Result<(), LookupTableError>,
) -> bool {
    &&& r == as_result(freeze_error(program_id, t0, authority), ())
    &&& r is Err ==> unchanged(t1, t0)
    &&& r is Ok ==> updated(t0, t1, frozen_data(t0.data@), t0.lamports)
}

/// Removes the authority of an active table that holds at least one
/// address: from then on nothing can change the table.
pub fn process_freeze_lookup_table(
    program_id: &Pubkey,
    table: &mut AccountState,
    authority: &AccountState,
) -> (r: Result<(), LookupTableError>)
    ensures
        freeze_post(program_id@, *authority, *old(table), *final(table), r),
{
    check_table_access(program_id, table, authority)?;
    if table.data[21] == 0 {
        return Err(LookupTableError::Immutable);
    }
    if read_deactivation_slot(table.data.as_slice()) != ACTIVE_DEACTIVATION_SLOT {
        return Err(LookupTableError::InvalidArgument);
    }
    if table.data.len() <= LOOKUP_TABLE_META_SIZE {
        return Err(LookupTableError::InvalidInstructionData);
    }
    if !authority_matches(table.data.as_slice(), &authority.key) {
        return Err(LookupTableError::IncorrectAuthority);
    }
    write_frozen(table.data.as_mut_slice());
    Ok(())
}

// ---------------------------------------------------------------------------
// Deactivate
pub open spec fn deactivate_error(
    program_id: Seq<u8>,
    table: AccountState,
    authority: AccountState,
) -> Option<LookupTableError> {
    if table_access_error(program_id, table, authority) is Some {
        table_access_error(program_id, table, authority)
    } else if mutation_error(table, authority) is Some {
        mutation_error(table, authority)
    } else if is_deactivating(table.data@) {
        Some(LookupTableError::InvalidArgument)
    } else {
        None
    }
}

/// The data of a table whose deactivation starts in `slot`.
pub open spec fn deactivated_data(d: Seq<u8>, slot: u64) -> Seq<u8> {
    d.subrange(0, 4) + spec_u64_to_le_bytes(slot) + d.subrange(12, d.len() as int)
}

/// The outcome of Deactivate, from the table before (`t0`) to after (`t1`).
pub open spec fn deactivate_post(
    program_id: Seq<u8>,
    authority: AccountState,
    current_slot: u64,
    t0: AccountState,
    t1: AccountState,
    r: Result<(), LookupTableError>,
) -> bool {
    &&& r == as_result(deactivate_error(program_id, t0, authority), ())
    &&& r is Err ==> unchanged(t1, t0)
    &&& r is Ok ==> updated(t0, t1, deactivated_data(t0.data@, current_slot), t0.lamports)
}

/// Starts the deactivation of a mutable, active table in `current_slot`,
/// the clock's slot; nothing else in the table changes.
pub fn process_deactivate_lookup_table(
    program_id: &Pubkey,
    table: &mut AccountState,
    authority: &AccountState,
    current_slot: u64,
) -> (r: Result<(), LookupTableError>)
    ensures
        deactivate_post(program_id@, *authority, current_slot, *old(table), *final(table), r),
{
    check_table_access(program_id, table, authority)?;
    check_mutation(table, authority)?;
    if read_deactivation_slot(table.data.as_slice()) != ACTIVE_DEACTIVATION_SLOT {
        return Err(LookupTableError::InvalidArgument);
    }
    write_deactivation_slot(table.data.as_mut_slice(), current_slot);
    Ok(())
}

// ---------------------------------------------------------------------------
// Close
/// The checks of Close up to the look-up of the deactivation slot in the
/// slot history, in order.
pub open spec fn close_precheck_error(
    program_id: Seq<u8>,
    table: AccountState,
    authority: AccountState,
    recipient: AccountState,
    slot_hashes: AccountState,
    current_slot: u64,
) -> Option<LookupTableError> {
    let d = table.data@;
    if table.owner@ != program_id {
        Some(LookupTableError::InvalidAccountOwner)
    } else if !authority.is_signer {
        Some(LookupTableError::MissingRequiredSignature)
    } else if table.key@ == recipient.key@ {
        Some(LookupTableError::InvalidArgument)
    } else if !has_header(d) {
        Some(LookupTableError::AccountDataTooSmall)
    } else if mutation_error(table, authority) is Some {
        mutation_error(table, authority)
    } else if !is_deactivating(d) {
        Some(LookupTableError::InvalidArgument)
    } else if deactivation_slot_of(d) == current_slot {
        Some(LookupTableError::InvalidArgument)
    } else if slot_hashes.key@ != SLOT_HASHES_ID@ {
        Some(LookupTableError::InvalidArgument)
    } else if !slot_hashes_valid(slot_hashes.data@) {
        Some(LookupTableError::AccountDataTooSmall)
    } else {
        None
    }
}

pub open spec fn close_error(
    program_id: Seq<u8>,
    table: AccountState,
    authority: AccountState,
    recipient: AccountState,
    slot_hashes: AccountState,
    current_slot: u64,
) -> Option<LookupTableError> {
    let pre = close_precheck_error(program_id, table, authority, recipient, slot_hashes, current_slot);
    if pre is Some {
        pre
    } else if slot_hash_position_of(slot_hashes.data@, deactivation_slot_of(table.data@)) is Some {
        Some(LookupTableError::InvalidArgument)
    } else if table.lamports + recipient.lamports > u64::MAX {
        Some(LookupTableError::ArithmeticOverflow)
    } else if !recipient.is_writable || !table.is_writable {
        Some(LookupTableError::Immutable)
    } else {
        None
    }
}

/// The outcome of Close, from the table and recipient before (`t0`, `c0`)
/// to after (`t1`, `c1`). Where the look-up is made, what it found is
/// related to the history's entries.
pub open spec fn close_post(
    program_id: Seq<u8>,
    authority: AccountState,
    slot_hashes: AccountState,
    current_slot: u64,
    t0: AccountState,
    c0: AccountState,
    t1: AccountState,
    c1: AccountState,
    r: Result<(), LookupTableError>,
) -> bool {
    let h = slot_hashes.data@;
    let ds = deactivation_slot_of(t0.data@);
    &&& r == as_result(close_error(program_id, t0, authority, c0, slot_hashes, current_slot), ())
    &&& close_precheck_error(program_id, t0, authority, c0, slot_hashes, current_slot) is None ==> {
        &&& slots_descending(h) && slot_hash_position_of(h, ds) is Some ==> lists_slot(h, ds)
        &&& slots_descending(h) && slot_hash_position_of(h, ds) is None ==> !lists_slot(h, ds)
    }
    &&& r is Err ==> unchanged(t1, t0) && unchanged(c1, c0)
    &&& r is Ok ==> {
        &&& updated(t0, t1, Seq::empty(), 0)
        &&& updated(c0, c1, c0.data@, (t0.lamports + c0.lamports) as u64)
    }
}

/// Closes a mutable table whose deactivation slot has left the slot
/// history: its whole balance goes to `recipient`, and it is left with no
/// data and no balance.
///
/// `current_slot` is the clock's slot. A table deactivated in the current
/// slot, or whose deactivation slot the history still holds, cannot close yet.
pub fn process_close_lookup_table(
    program_id: &Pubkey,
    table: &mut AccountState,
    authority: &AccountState,
    recipient: &mut AccountState,
    slot_hashes: &AccountState,
    current_slot: u64,
) -> (r: Result<(), LookupTableError>)
    ensures
        close_post(
            program_id@,
            *authority,
            *slot_hashes,
            current_slot,
            *old(table),
            *old(recipient),
            *final(table),
            *final(recipient),
            r,
        ),
{
    if !keys_equal(&table.owner, program_id) {
        return Err(LookupTableError::InvalidAccountOwner);
    }
    if !authority.is_signer {
        return Err(LookupTableError::MissingRequiredSignature);
    }
    if keys_equal(&table.key, &recipient.key) {
        return Err(LookupTableError::InvalidArgument);
    }
    if table.data.len() < LOOKUP_TABLE_META_SIZE {
        return Err(LookupTableError::AccountDataTooSmall);
    }
    check_mutation(table, authority)?;
    let deactivation_slot = read_deactivation_slot(table.data.as_slice());
    if deactivation_slot == ACTIVE_DEACTIVATION_SLOT {
        return Err(LookupTableError::InvalidArgument);
    }
    if deactivation_slot == current_slot {
        return Err(LookupTableError::InvalidArgument);
    }
    if !keys_equal(&slot_hashes.key, &SLOT_HASHES_ID) {
        return Err(LookupTableError::InvalidArgument);
    }
    match slot_position(slot_hashes.data.as_slice(), deactivation_slot) {
        None => return Err(LookupTableError::AccountDataTooSmall),
        Some(Some(_)) => return Err(LookupTableError::InvalidArgument),
        Some(None) => {},
    }
    let total = match table.lamports.checked_add(recipient.lamports) {
        Some(t) => t,
        None => return Err(LookupTableError::ArithmeticOverflow),
    };
    if !recipient.is_writable || !table.is_writable {
        return Err(LookupTableError::Immutable);
    }
    recipient.lamports = total;
    table.data.truncate(0);
    table.lamports = 0;
    assert(table.data@ =~= Seq::<u8>::empty());
    Ok(())
}

} // verus!
