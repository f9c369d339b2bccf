use p_address_lookup_table::error::LookupTableError;
use p_address_lookup_table::instruction::{
    unpack_instruction, LookupTableInstruction, EXTEND_ADDRESSES_START,
};
use p_address_lookup_table::processor::{
    extended_table_data_len, keys_equal, process_close_lookup_table, process_create_lookup_table,
    process_deactivate_lookup_table, process_extend_lookup_table, process_freeze_lookup_table,
    AccountState, HostAction,
};
use p_address_lookup_table::slot_hashes::{
    is_recent_slot, slot_hashes_entry_count, slot_position, MAX_ENTRIES, SLOT_HASHES_ID,
};
use p_address_lookup_table::state::{
    read_authority, read_deactivation_slot, read_last_extended_slot, read_meta,
    serialize_new_lookup_table, Pubkey, TableAuthority, LOOKUP_TABLE_MAX_ADDRESSES,
    LOOKUP_TABLE_META_SIZE,
};

const PROGRAM_ID: Pubkey = [7u8; 32];
const SYSTEM_PROGRAM: Pubkey = [0u8; 32];
const AUTHORITY: Pubkey = [1u8; 32];
const PAYER: Pubkey = [2u8; 32];
const TABLE: Pubkey = [3u8; 32];
const RECIPIENT: Pubkey = [4u8; 32];

/// Rent-exempt minimum of `len` bytes at the ledger's default rates.
fn rent(len: usize) -> u64 {
    (128 + len as u64) * 3480 * 2
}

fn account(key: Pubkey, owner: Pubkey, lamports: u64, data: Vec<u8>, signer: bool) -> AccountState {
    AccountState { key, owner, lamports, data, is_signer: signer, is_writable: true }
}

/// Slot history data listing `slots`, newest first.
fn slot_history(slots: &[u64]) -> AccountState {
    let mut data = (slots.len() as u64).to_le_bytes().to_vec();
    for s in slots {
        data.extend_from_slice(&s.to_le_bytes());
        data.extend_from_slice(&[9u8; 32]);
    }
    account(SLOT_HASHES_ID, SYSTEM_PROGRAM, 1, data, false)
}

fn address(i: u8) -> [u8; 32] {
    let mut a = [0u8; 32];
    a[0] = i;
    a[31] = 0xaa;
    a
}

fn addresses(from: u8, n: usize) -> Vec<u8> {
    let mut v = Vec::new();
    for i in 0..n {
        v.extend_from_slice(&address(from.wrapping_add(i as u8)));
    }
    v
}

fn fresh_table() -> AccountState {
    account(TABLE, SYSTEM_PROGRAM, 0, Vec::new(), false)
}

fn authority(signer: bool) -> AccountState {
    account(AUTHORITY, SYSTEM_PROGRAM, 0, Vec::new(), signer)
}

fn payer() -> AccountState {
    account(PAYER, SYSTEM_PROGRAM, 1_000_000_000, Vec::new(), true)
}

fn created_table() -> (AccountState, AccountState) {
    let mut table = fresh_table();
    let mut payer = payer();
    let r = process_create_lookup_table(
        &PROGRAM_ID,
        &mut table,
        &authority(false),
        &mut payer,
        &slot_history(&[0]),
        0,
        Some(TABLE),
        rent(LOOKUP_TABLE_META_SIZE),
    );
    assert_eq!(
        r,
        Ok(HostAction::CreateAccount {
            lamports: rent(LOOKUP_TABLE_META_SIZE),
            space: LOOKUP_TABLE_META_SIZE as u64
        })
    );
    (table, payer)
}

fn extend(table: &mut AccountState, payer: &mut AccountState, new: &[u8], slot: u64) -> Result<HostAction, LookupTableError> {
    let new_len = extended_table_data_len(table.data.len(), new.len()).unwrap_or(0);
    process_extend_lookup_table(&PROGRAM_ID, table, &authority(true), payer, new, slot, rent(new_len))
}

fn extended_table() -> (AccountState, AccountState) {
    let (mut table, mut payer) = created_table();
    assert!(extend(&mut table, &mut payer, &addresses(1, 3), 0).is_ok());
    (table, payer)
}

fn instruction(disc: u32, payload: &[u8]) -> Vec<u8> {
    let mut v = disc.to_le_bytes().to_vec();
    v.extend_from_slice(payload);
    v
}

// ---------------------------------------------------------------------------
// A table's lifecycle, step by step.

#[test]
fn test_1_create_lookup_table() {
    let recent_slot: u64 = 0;
    let bump: u8 = 254;
    let mut data = Vec::with_capacity(13);
    data.extend_from_slice(&0u32.to_le_bytes());
    data.extend_from_slice(&recent_slot.to_le_bytes());
    data.push(bump);
    assert_eq!(
        unpack_instruction(&data),
        Ok(LookupTableInstruction::Create { recent_slot, bump_seed: bump })
    );
    let mut table = fresh_table();
    let mut payer = account(PAYER, SYSTEM_PROGRAM, 1_000_000_000, Vec::new(), true);
    let r = process_create_lookup_table(
        &PROGRAM_ID,
        &mut table,
        &authority(true),
        &mut payer,
        &slot_history(&[recent_slot]),
        recent_slot,
        Some(TABLE),
        rent(LOOKUP_TABLE_META_SIZE),
    );
    assert_eq!(r, Ok(HostAction::CreateAccount { lamports: 1_280_640, space: 56 }));
    assert_eq!(table.owner, PROGRAM_ID);
    assert_eq!(table.lamports, 1_280_640);
    assert_eq!(payer.lamports, 1_000_000_000 - 1_280_640);
    assert_eq!(table.data.len(), 56);
}

#[test]
fn test_2_extend_lookup_program() {
    let (mut table, mut payer) = created_table();
    let address_len: u64 = 3;
    let new_addresses = addresses(10, 3);
    let mut payload = address_len.to_le_bytes().to_vec();
    payload.extend_from_slice(&new_addresses);
    let data = instruction(2, &payload);
    assert_eq!(data.len(), 4 + 8 + 3 * 32);
    assert_eq!(unpack_instruction(&data), Ok(LookupTableInstruction::Extend { address_count: 3 }));
    let raw = &data[EXTEND_ADDRESSES_START..];
    let r = extend(&mut table, &mut payer, raw, 0);
    assert_eq!(r, Ok(HostAction::Transfer { lamports: rent(152) - rent(56) }));
    assert_eq!(table.data.len(), 56 + 32 * 3);
    assert_eq!(&table.data[56..], &new_addresses[..]);
    assert_eq!(table.lamports, rent(152));
}

#[test]
fn test_3_freeze_lookup_table() {
    let (mut table, _) = extended_table();
    let data = instruction(1, &[]);
    assert_eq!(unpack_instruction(&data), Ok(LookupTableInstruction::Freeze));
    assert_eq!(process_freeze_lookup_table(&PROGRAM_ID, &mut table, &authority(true)), Ok(()));
    assert!(matches!(read_authority(&table.data), TableAuthority::Frozen));
}

#[test]
fn test_4_deactivate_lookup_table() {
    let (mut table, _) = extended_table();
    let data = instruction(3, &[]);
    assert_eq!(unpack_instruction(&data), Ok(LookupTableInstruction::Deactivate));
    assert_eq!(process_deactivate_lookup_table(&PROGRAM_ID, &mut table, &authority(true), 0), Ok(()));
    assert_eq!(read_deactivation_slot(&table.data), 0);
}

#[test]
fn test_5_close_lookup_table() {
    let (mut table, _) = extended_table();
    assert_eq!(process_deactivate_lookup_table(&PROGRAM_ID, &mut table, &authority(true), 0), Ok(()));
    // Move the deactivation slot out of the recent slots.
    table.data[4] = 42;
    let mut recipient = account(RECIPIENT, SYSTEM_PROGRAM, 0, Vec::new(), false);
    let data = instruction(4, &[]);
    assert_eq!(unpack_instruction(&data), Ok(LookupTableInstruction::Close));
    let balance = table.lamports;
    let r = process_close_lookup_table(
        &PROGRAM_ID,
        &mut table,
        &authority(true),
        &mut recipient,
        &slot_history(&[0]),
        0,
    );
    assert_eq!(r, Ok(()));
    assert_eq!(recipient.lamports, balance);
    assert_eq!(table.lamports, 0);
    assert!(table.data.is_empty());
}

// ---------------------------------------------------------------------------
// Create

#[test]
fn create_writes_exact_header() {
    let (table, _) = created_table();
    let mut expected = vec![1u8, 0, 0, 0];
    expected.extend_from_slice(&u64::MAX.to_le_bytes());
    expected.extend_from_slice(&0u64.to_le_bytes());
    expected.push(0);
    expected.push(1);
    expected.extend_from_slice(&AUTHORITY);
    expected.extend_from_slice(&[0, 0]);
    assert_eq!(table.data, expected);
    let meta = read_meta(&table.data).unwrap();
    assert_eq!(meta.deactivation_slot, u64::MAX);
    assert_eq!(meta.last_extended_slot, 0);
    assert_eq!(meta.last_extended_slot_start_index, 0);
    assert_eq!(meta.authority_tag, 1);
    assert_eq!(meta.authority, AUTHORITY);
    assert_eq!(meta._padding, 0);
}

#[test]
fn create_twice_is_a_no_op() {
    let (mut table, mut payer) = created_table();
    let before_data = table.data.clone();
    let before_lamports = (table.lamports, payer.lamports);
    let r = process_create_lookup_table(
        &PROGRAM_ID,
        &mut table,
        &authority(false),
        &mut payer,
        &slot_history(&[0]),
        0,
        Some(TABLE),
        rent(LOOKUP_TABLE_META_SIZE),
    );
    assert_eq!(r, Ok(HostAction::NoAction));
    assert_eq!(table.data, before_data);
    assert_eq!((table.lamports, payer.lamports), before_lamports);
}

#[test]
fn create_rejects_stale_slot() {
    let mut table = fresh_table();
    let mut payer = payer();
    let r = process_create_lookup_table(
        &PROGRAM_ID,
        &mut table,
        &authority(false),
        &mut payer,
        &slot_history(&[9, 8, 7]),
        5,
        Some(TABLE),
        rent(LOOKUP_TABLE_META_SIZE),
    );
    assert_eq!(r, Err(LookupTableError::InvalidInstructionData));
    assert_eq!(table.owner, SYSTEM_PROGRAM);
    assert!(table.data.is_empty());
    assert_eq!(payer.lamports, 1_000_000_000);
}

#[test]
fn create_rejects_stale_slot_even_without_derived_address() {
    let mut table = fresh_table();
    let mut payer = payer();
    let r = process_create_lookup_table(
        &PROGRAM_ID, &mut table, &authority(false), &mut payer, &slot_history(&[9]), 5, None, 1,
    );
    assert_eq!(r, Err(LookupTableError::InvalidInstructionData));
}

#[test]
fn create_checks_payer_history_and_address() {
    let mut table = fresh_table();
    let mut unsigned = account(PAYER, SYSTEM_PROGRAM, 10, Vec::new(), false);
    let h = slot_history(&[3]);
    let r = process_create_lookup_table(&PROGRAM_ID, &mut table, &authority(false), &mut unsigned, &h, 3, Some(TABLE), 1);
    assert_eq!(r, Err(LookupTableError::MissingRequiredSignature));

    let mut p = payer();
    let mut wrong_history = slot_history(&[3]);
    wrong_history.key = [5u8; 32];
    let r = process_create_lookup_table(&PROGRAM_ID, &mut table, &authority(false), &mut p, &wrong_history, 3, Some(TABLE), 1);
    assert_eq!(r, Err(LookupTableError::InvalidArgument));

    let mut short_history = slot_history(&[3]);
    short_history.data.truncate(20);
    let r = process_create_lookup_table(&PROGRAM_ID, &mut table, &authority(false), &mut p, &short_history, 3, Some(TABLE), 1);
    assert_eq!(r, Err(LookupTableError::AccountDataTooSmall));

    let r = process_create_lookup_table(&PROGRAM_ID, &mut table, &authority(false), &mut p, &h, 3, None, 1);
    assert_eq!(r, Err(LookupTableError::InvalidSeeds));

    let r = process_create_lookup_table(&PROGRAM_ID, &mut table, &authority(false), &mut p, &h, 3, Some([6u8; 32]), 1);
    assert_eq!(r, Err(LookupTableError::InvalidArgument));

    let mut poor = account(PAYER, SYSTEM_PROGRAM, 10, Vec::new(), true);
    let r = process_create_lookup_table(&PROGRAM_ID, &mut table, &authority(false), &mut poor, &h, 3, Some(TABLE), 100);
    assert_eq!(r, Err(LookupTableError::InsufficientFunds));
    assert!(table.data.is_empty());
}

#[test]
fn create_tops_up_only_the_shortfall() {
    let mut table = account(TABLE, SYSTEM_PROGRAM, 1000, Vec::new(), false);
    let mut p = payer();
    let r = process_create_lookup_table(&PROGRAM_ID, &mut table, &authority(false), &mut p, &slot_history(&[3]), 3, Some(TABLE), 5000);
    assert_eq!(r, Ok(HostAction::CreateAccount { lamports: 4000, space: 56 }));
    assert_eq!(table.lamports, 5000);
    assert_eq!(p.lamports, 1_000_000_000 - 4000);

    let mut rich = account(TABLE, SYSTEM_PROGRAM, 9000, Vec::new(), false);
    let r = process_create_lookup_table(&PROGRAM_ID, &mut rich, &authority(false), &mut p, &slot_history(&[3]), 3, Some(TABLE), 5000);
    assert_eq!(r, Ok(HostAction::CreateAccount { lamports: 0, space: 56 }));
    assert_eq!(rich.lamports, 9000);
}

// ---------------------------------------------------------------------------
// Freeze

#[test]
fn freeze_is_final() {
    let (mut table, mut payer) = extended_table();
    assert_eq!(process_freeze_lookup_table(&PROGRAM_ID, &mut table, &authority(true)), Ok(()));
    assert_eq!(&table.data[22..54], &[0u8; 32]);
    assert_eq!(table.data[21], 0);
    let frozen = table.data.clone();
    assert_eq!(process_freeze_lookup_table(&PROGRAM_ID, &mut table, &authority(true)), Err(LookupTableError::Immutable));
    assert_eq!(extend(&mut table, &mut payer, &addresses(50, 1), 3), Err(LookupTableError::Immutable));
    assert_eq!(process_deactivate_lookup_table(&PROGRAM_ID, &mut table, &authority(true), 3), Err(LookupTableError::Immutable));
    assert_eq!(table.data, frozen);
}

#[test]
fn freeze_refuses_empty_and_deactivated_tables() {
    let (mut empty, _) = created_table();
    assert_eq!(process_freeze_lookup_table(&PROGRAM_ID, &mut empty, &authority(true)), Err(LookupTableError::InvalidInstructionData));
    let (mut table, _) = extended_table();
    assert_eq!(process_deactivate_lookup_table(&PROGRAM_ID, &mut table, &authority(true), 7), Ok(()));
    assert_eq!(process_freeze_lookup_table(&PROGRAM_ID, &mut table, &authority(true)), Err(LookupTableError::InvalidArgument));
}

#[test]
fn freeze_checks_owner_signer_and_authority() {
    let (mut table, _) = extended_table();
    assert_eq!(process_freeze_lookup_table(&PROGRAM_ID, &mut table, &authority(false)), Err(LookupTableError::MissingRequiredSignature));
    assert_eq!(process_freeze_lookup_table(&[8u8; 32], &mut table, &authority(true)), Err(LookupTableError::InvalidAccountOwner));
    let other = account([5u8; 32], SYSTEM_PROGRAM, 0, Vec::new(), true);
    assert_eq!(process_freeze_lookup_table(&PROGRAM_ID, &mut table, &other), Err(LookupTableError::IncorrectAuthority));
    let mut short = account(TABLE, PROGRAM_ID, 0, vec![1, 0, 0, 0], false);
    assert_eq!(process_freeze_lookup_table(&PROGRAM_ID, &mut short, &authority(true)), Err(LookupTableError::AccountDataTooSmall));
}

// ---------------------------------------------------------------------------
// Extend

#[test]
fn extend_marks_growth_per_slot() {
    let (mut table, mut payer) = created_table();
    assert!(extend(&mut table, &mut payer, &addresses(1, 2), 5).is_ok());
    assert_eq!(read_last_extended_slot(&table.data), 5);
    assert_eq!(table.data[20], 0);
    assert!(extend(&mut table, &mut payer, &addresses(3, 1), 5).is_ok());
    assert_eq!(table.data[20], 0);
    assert!(extend(&mut table, &mut payer, &addresses(4, 1), 6).is_ok());
    assert_eq!(read_last_extended_slot(&table.data), 6);
    assert_eq!(table.data[20], 3);
    assert_eq!(table.data.len(), 56 + 4 * 32);
    assert_eq!(&table.data[56 + 3 * 32..], &address(4)[..]);
}

#[test]
fn extend_never_passes_capacity() {
    let (mut table, mut payer) = created_table();
    assert!(extend(&mut table, &mut payer, &addresses(0, 255), 1).is_ok());
    let before = table.data.clone();
    let lamports = table.lamports;
    assert_eq!(extend(&mut table, &mut payer, &addresses(0, 2), 2), Err(LookupTableError::InvalidInstructionData));
    assert_eq!(table.data, before);
    assert_eq!(table.lamports, lamports);
    assert!(extend(&mut table, &mut payer, &addresses(0, 1), 2).is_ok());
    assert_eq!(table.data.len(), 56 + 32 * LOOKUP_TABLE_MAX_ADDRESSES);
    assert_eq!(extend(&mut table, &mut payer, &addresses(0, 1), 3), Err(LookupTableError::InvalidArgument));
}

#[test]
fn extend_rejects_malformed_addresses() {
    let (mut table, mut payer) = created_table();
    assert_eq!(extend(&mut table, &mut payer, &[], 1), Err(LookupTableError::InvalidInstructionData));
    assert_eq!(extend(&mut table, &mut payer, &[1u8; 33], 1), Err(LookupTableError::InvalidInstructionData));
    assert_eq!(table.data.len(), 56);
}

#[test]
fn extend_transfers_exactly_the_shortfall() {
    let (mut table, mut payer) = created_table();
    let p0 = payer.lamports;
    let r = process_extend_lookup_table(&PROGRAM_ID, &mut table, &authority(true), &mut payer, &addresses(1, 1), 1, rent(88));
    assert_eq!(r, Ok(HostAction::Transfer { lamports: rent(88) - rent(56) }));
    assert_eq!(table.lamports, rent(88));
    assert_eq!(payer.lamports, p0 - (rent(88) - rent(56)));
}

#[test]
fn extend_skips_transfer_when_funded() {
    let (mut table, _) = created_table();
    table.lamports = 10_000_000;
    let mut unsigned = account(PAYER, SYSTEM_PROGRAM, 5, Vec::new(), false);
    let r = process_extend_lookup_table(&PROGRAM_ID, &mut table, &authority(true), &mut unsigned, &addresses(1, 1), 1, rent(88));
    assert_eq!(r, Ok(HostAction::NoAction));
    assert_eq!(table.lamports, 10_000_000);
    assert_eq!(unsigned.lamports, 5);
}

#[test]
fn extend_needs_payer_signature_for_transfer() {
    let (mut table, _) = created_table();
    let mut unsigned = account(PAYER, SYSTEM_PROGRAM, 1_000_000_000, Vec::new(), false);
    let r = process_extend_lookup_table(&PROGRAM_ID, &mut table, &authority(true), &mut unsigned, &addresses(1, 1), 1, rent(88));
    assert_eq!(r, Err(LookupTableError::MissingRequiredSignature));
    assert_eq!(table.data.len(), 56);
    let mut poor = account(PAYER, SYSTEM_PROGRAM, 1, Vec::new(), true);
    let r = process_extend_lookup_table(&PROGRAM_ID, &mut table, &authority(true), &mut poor, &addresses(1, 1), 1, rent(88));
    assert_eq!(r, Err(LookupTableError::InsufficientFunds));
}

#[test]
fn extend_needs_writable_active_table() {
    let (mut table, mut payer) = created_table();
    table.is_writable = false;
    assert_eq!(extend(&mut table, &mut payer, &addresses(1, 1), 1), Err(LookupTableError::Immutable));
    table.is_writable = true;
    assert_eq!(process_deactivate_lookup_table(&PROGRAM_ID, &mut table, &authority(true), 1), Ok(()));
    assert_eq!(extend(&mut table, &mut payer, &addresses(1, 1), 1), Err(LookupTableError::InvalidArgument));
}

#[test]
fn extended_length_is_within_capacity() {
    assert_eq!(extended_table_data_len(56, 96), Some(152));
    assert_eq!(extended_table_data_len(56 + 32 * 255, 32), Some(56 + 32 * 256));
    assert_eq!(extended_table_data_len(56 + 32 * 255, 64), None);
    assert_eq!(extended_table_data_len(10, 32), None);
}

// ---------------------------------------------------------------------------
// Deactivate

#[test]
fn deactivate_records_slot_once() {
    let (mut table, _) = extended_table();
    assert_eq!(process_deactivate_lookup_table(&PROGRAM_ID, &mut table, &authority(true), 77), Ok(()));
    assert_eq!(read_deactivation_slot(&table.data), 77);
    assert_eq!(&table.data[4..12], &77u64.to_le_bytes());
    assert_eq!(process_deactivate_lookup_table(&PROGRAM_ID, &mut table, &authority(true), 78), Err(LookupTableError::InvalidArgument));
    assert_eq!(read_deactivation_slot(&table.data), 77);
}

#[test]
fn deactivate_checks_authority() {
    let (mut table, _) = extended_table();
    let other = account([5u8; 32], SYSTEM_PROGRAM, 0, Vec::new(), true);
    assert_eq!(process_deactivate_lookup_table(&PROGRAM_ID, &mut table, &other, 1), Err(LookupTableError::IncorrectAuthority));
    assert_eq!(process_deactivate_lookup_table(&PROGRAM_ID, &mut table, &authority(false), 1), Err(LookupTableError::MissingRequiredSignature));
}

// ---------------------------------------------------------------------------
// Close

#[test]
fn close_waits_for_the_window() {
    let (mut table, _) = extended_table();
    assert_eq!(process_deactivate_lookup_table(&PROGRAM_ID, &mut table, &authority(true), 100), Ok(()));
    let mut recipient = account(RECIPIENT, SYSTEM_PROGRAM, 5, Vec::new(), false);
    let same_slot = process_close_lookup_table(&PROGRAM_ID, &mut table, &authority(true), &mut recipient, &slot_history(&[99]), 100);
    assert_eq!(same_slot, Err(LookupTableError::InvalidArgument));
    let in_window = process_close_lookup_table(&PROGRAM_ID, &mut table, &authority(true), &mut recipient, &slot_history(&[101, 100, 99]), 101);
    assert_eq!(in_window, Err(LookupTableError::InvalidArgument));
    assert_eq!(recipient.lamports, 5);
    let balance = table.lamports;
    let after = process_close_lookup_table(&PROGRAM_ID, &mut table, &authority(true), &mut recipient, &slot_history(&[700, 699]), 700);
    assert_eq!(after, Ok(()));
    assert_eq!(recipient.lamports, 5 + balance);
    assert_eq!(table.lamports, 0);
    assert!(table.data.is_empty());
}

#[test]
fn close_refuses_active_frozen_and_self() {
    let (mut table, _) = extended_table();
    let mut recipient = account(RECIPIENT, SYSTEM_PROGRAM, 0, Vec::new(), false);
    let h = slot_history(&[1]);
    assert_eq!(process_close_lookup_table(&PROGRAM_ID, &mut table, &authority(true), &mut recipient, &h, 5), Err(LookupTableError::InvalidArgument));
    let mut itself = account(TABLE, SYSTEM_PROGRAM, 0, Vec::new(), false);
    assert_eq!(process_close_lookup_table(&PROGRAM_ID, &mut table, &authority(true), &mut itself, &h, 5), Err(LookupTableError::InvalidArgument));
    let (mut frozen, _) = extended_table();
    assert_eq!(process_freeze_lookup_table(&PROGRAM_ID, &mut frozen, &authority(true)), Ok(()));
    assert_eq!(process_close_lookup_table(&PROGRAM_ID, &mut frozen, &authority(true), &mut recipient, &h, 5), Err(LookupTableError::Immutable));
}

#[test]
fn close_checks_balance_and_writability() {
    let (mut table, _) = extended_table();
    assert_eq!(process_deactivate_lookup_table(&PROGRAM_ID, &mut table, &authority(true), 1), Ok(()));
    let h = slot_history(&[3]);
    let mut full = account(RECIPIENT, SYSTEM_PROGRAM, u64::MAX, Vec::new(), false);
    assert_eq!(process_close_lookup_table(&PROGRAM_ID, &mut table, &authority(true), &mut full, &h, 3), Err(LookupTableError::ArithmeticOverflow));
    let mut readonly = account(RECIPIENT, SYSTEM_PROGRAM, 0, Vec::new(), false);
    readonly.is_writable = false;
    assert_eq!(process_close_lookup_table(&PROGRAM_ID, &mut table, &authority(true), &mut readonly, &h, 3), Err(LookupTableError::Immutable));
    let mut wrong = slot_history(&[3]);
    wrong.key = [5u8; 32];
    let mut recipient = account(RECIPIENT, SYSTEM_PROGRAM, 0, Vec::new(), false);
    assert_eq!(process_close_lookup_table(&PROGRAM_ID, &mut table, &authority(true), &mut recipient, &wrong, 3), Err(LookupTableError::InvalidArgument));
    assert!(!table.data.is_empty());
}

// ---------------------------------------------------------------------------
// End-to-end scenarios

#[test]
fn scenario_create_extend_freeze_extend() {
    let (mut table, mut payer) = created_table();
    assert!(extend(&mut table, &mut payer, &addresses(1, 3), 0).is_ok());
    assert_eq!(process_freeze_lookup_table(&PROGRAM_ID, &mut table, &authority(true)), Ok(()));
    assert_eq!(extend(&mut table, &mut payer, &addresses(4, 1), 1), Err(LookupTableError::Immutable));
}

#[test]
fn scenario_create_deactivate_close() {
    let (mut table, _) = created_table();
    let s: u64 = 40;
    assert_eq!(process_deactivate_lookup_table(&PROGRAM_ID, &mut table, &authority(true), s), Ok(()));
    let mut recipient = account(RECIPIENT, SYSTEM_PROGRAM, 1_000, Vec::new(), false);
    let r = process_close_lookup_table(&PROGRAM_ID, &mut table, &authority(true), &mut recipient, &slot_history(&[s - 1]), s);
    assert_eq!(r, Err(LookupTableError::InvalidArgument));
    let prior = table.lamports;
    let later = s + MAX_ENTRIES as u64 + 1;
    let r = process_close_lookup_table(&PROGRAM_ID, &mut table, &authority(true), &mut recipient, &slot_history(&[later, later - 1]), later);
    assert_eq!(r, Ok(()));
    assert_eq!(recipient.lamports, 1_000 + prior);
    assert_eq!(table.data.len(), 0);
    assert_eq!(table.lamports, 0);
}

// ---------------------------------------------------------------------------
// Codec, slot history and wire format

#[test]
fn serialize_needs_a_header() {
    let mut short = vec![9u8; 55];
    assert_eq!(serialize_new_lookup_table(&mut short, &AUTHORITY), Err(LookupTableError::AccountDataTooSmall));
    assert_eq!(short, vec![9u8; 55]);
    let mut long = vec![9u8; 60];
    assert_eq!(serialize_new_lookup_table(&mut long, &AUTHORITY), Ok(()));
    assert_eq!(&long[56..], &[9u8; 4]);
    assert_eq!(long[21], 1);
    assert!(read_meta(&long[..40]).is_none());
}

#[test]
fn slot_history_look_ups() {
    let h = slot_history(&[30, 20, 10]);
    assert_eq!(slot_hashes_entry_count(&h.data), Some(3));
    assert_eq!(is_recent_slot(&h.data, 20), Some(true));
    assert_eq!(is_recent_slot(&h.data, 21), Some(false));
    assert_eq!(slot_position(&h.data, 10), Some(Some(2)));
    assert_eq!(slot_position(&h.data, 30), Some(Some(0)));
    assert_eq!(slot_position(&h.data, 15), Some(None));
    let mut bad = h.data.clone();
    bad.truncate(50);
    assert_eq!(slot_hashes_entry_count(&bad), None);
    assert_eq!(slot_position(&bad, 10), None);
    assert_eq!(is_recent_slot(&[1, 2], 10), None);
}

#[test]
fn keys_compare_bytewise() {
    assert!(keys_equal(&AUTHORITY, &[1u8; 32]));
    assert!(!keys_equal(&AUTHORITY, &address(1)));
}

#[test]
fn unpack_rejects_malformed_data() {
    assert_eq!(unpack_instruction(&[0, 0, 0]), Err(LookupTableError::InvalidInstructionData));
    assert_eq!(unpack_instruction(&instruction(0, &[0u8; 8])), Err(LookupTableError::InvalidInstructionData));
    assert_eq!(unpack_instruction(&instruction(9, &[])), Err(LookupTableError::InvalidInstructionData));
    let mut payload = 2u64.to_le_bytes().to_vec();
    payload.extend_from_slice(&[0u8; 32]);
    assert_eq!(unpack_instruction(&instruction(2, &payload)), Err(LookupTableError::InvalidInstructionData));
    let mut huge = u64::MAX.to_le_bytes().to_vec();
    huge.extend_from_slice(&[0u8; 32]);
    assert_eq!(unpack_instruction(&instruction(2, &huge)), Err(LookupTableError::InvalidInstructionData));
    let mut create = 513u64.to_le_bytes().to_vec();
    create.push(7);
    assert_eq!(
        unpack_instruction(&instruction(0, &create)),
        Ok(LookupTableInstruction::Create { recent_slot: 513, bump_seed: 7 })
    );
}

#[test]
fn slot_history_address_is_the_ledgers() {
    assert_eq!(SLOT_HASHES_ID, pinocchio::sysvars::slot_hashes::SLOTHASHES_ID);
}
