use vstd::bytes::spec_u64_from_le_bytes;
use vstd::prelude::*;

use crate::state::{read_u64_at, Pubkey};

verus! {

/// Address of the ledger account that lists the most recent slots,
/// `SysvarS1otHashes111111111111111111111111111`.
pub const SLOT_HASHES_ID: Pubkey = [
    6, 167, 213, 23, 25, 47, 10, 175, 198, 242, 101, 227, 251, 119, 204, 122, 218, 130, 197, 41,
    208, 190, 59, 19, 110, 45, 0, 85, 32, 0, 0, 0,
];

/// Number of recent slots that the slot history holds at most.
pub const MAX_ENTRIES: usize = 512;

/// Bytes of the little-endian entry count at the start of the history.
pub const NUM_ENTRIES_SIZE: usize = 8;

/// Bytes of one entry: an 8-byte slot and a 32-byte hash.
pub const ENTRY_SIZE: usize = 40;

// The history is an 8-byte entry count followed by that many entries.
pub open spec fn slot_hash_count(d: Seq<u8>) -> int {
    spec_u64_from_le_bytes(d.subrange(0, 8)) as int
}

/// The data holds at least as many entries as its count says.
pub open spec fn slot_hashes_valid(d: Seq<u8>) -> bool {
    &&& d.len() >= NUM_ENTRIES_SIZE
    &&& NUM_ENTRIES_SIZE + slot_hash_count(d) * ENTRY_SIZE <= d.len()
}

/// The slot of entry `i`.
pub open spec fn slot_at(d: Seq<u8>, i: int) -> u64 {
    spec_u64_from_le_bytes(d.subrange(8 + 40 * i, 16 + 40 * i))
}

/// Some entry of the history is `slot`.
pub open spec fn lists_slot(d: Seq<u8>, slot: u64) -> bool {
    exists|i: int| 0 <= i < slot_hash_count(d) && #[trigger] slot_at(d, i) == slot
}

/// The entries run from the newest slot to the oldest.
pub open spec fn slots_descending(d: Seq<u8>) -> bool {
    forall|i: int, j: int|
        0 <= i < j < slot_hash_count(d) ==> #[trigger] slot_at(d, i) >= #[trigger] slot_at(d, j)
}

/// Where a binary search of the history for `slot` lands.
pub uninterp spec fn slot_hash_position_of(d: Seq<u8>, slot: u64) -> Option<usize>;

/// Relies on pinocchio's `SlotHashes::new` (which accepts data holding at
/// least as many entries as its count) and `SlotHashes::position`, a binary
/// search with `slice::binary_search_by` over entries taken as newest first.
/// The result is stated only for entries in that order: an index it returns
/// holds `slot`, and it misses no entry that holds `slot`.
#[verifier::external_body]
fn binary_search_slot(data: &[u8], slot: u64) -> (r: Option<usize>)
    requires
        slot_hashes_valid(data@),
    ensures
        r == slot_hash_position_of(data@, slot),
        slots_descending(data@) ==> (r matches Some(i) ==> i < slot_hash_count(data@) && slot_at(
            data@,
            i as int,
        ) == slot),
        slots_descending(data@) ==> (r is None ==> !lists_slot(data@, slot)),
{
    match pinocchio::sysvars::slot_hashes::SlotHashes::new(data) {
        Ok(hashes) => hashes.position(slot),
        Err(_) => None,
    }
}

/// The number of entries, when the data holds as many as its count says.
pub fn slot_hashes_entry_count(data: &[u8]) -> (r: Option<usize>)
    ensures
        r is Some <==> slot_hashes_valid(data@),
        r matches Some(n) ==> n == slot_hash_count(data@),
{
    let len = data.len();
    if len < NUM_ENTRIES_SIZE {
        return None;
    }
    let count = read_u64_at(data, 0);
    let room = (len - NUM_ENTRIES_SIZE) / ENTRY_SIZE;
    if count > room as u64 {
        assert(count * 40 > len - 8) by (nonlinear_arith)
            requires
                count > room,
                room == (len - 8) / 40,
                len >= 8,
        ;
        return None;
    }
    assert(count * 40 <= len - 8) by (nonlinear_arith)
        requires
            count <= room,
            room == (len - 8) / 40,
            len >= 8,
    ;
    Some(count as usize)
}

/// Whether some entry of the history is `slot`, scanning every entry.
/// `None` when the data is shorter than its count says.
pub fn is_recent_slot(data: &[u8], slot: u64) -> (r: Option<bool>)
    ensures
        r is Some <==> slot_hashes_valid(data@),
        r matches Some(b) ==> b == lists_slot(data@, slot),
{
    let count = match slot_hashes_entry_count(data) {
        Some(n) => n,
        None => return None,
    };
    let len = data.len();
    let mut i: usize = 0;
    while i < count
        invariant
            0 <= i <= count,
            len == data@.len(),
            count == slot_hash_count(data@),
            slot_hashes_valid(data@),
            forall|j: int| 0 <= j < i ==> #[trigger] slot_at(data@, j) != slot,
        decreases count - i,
    {
        assert(8 + 40 * i + 8 <= data@.len()) by (nonlinear_arith)
            requires
                i < count,
                8 + count * 40 <= data@.len(),
        ;
        if read_u64_at(data, 8 + 40 * i) == slot {
            assert(slot_at(data@, i as int) == slot);
            return Some(true);
        }
        i = i + 1;
    }
    Some(false)
}

/// Where the history holds `slot`, found by binary search as the ledger
/// does. `None` when the data is shorter than its count says. On a history
/// that runs newest first, the search finds `slot` exactly when it is listed.
pub fn slot_position(data: &[u8], slot: u64) -> (r: Option<Option<usize>>)
    ensures
        r is Some <==> slot_hashes_valid(data@),
        r matches Some(p) ==> p == slot_hash_position_of(data@, slot),
        slots_descending(data@) ==> (r matches Some(Some(i)) ==> i < slot_hash_count(data@)
            && slot_at(data@, i as int) == slot),
        slots_descending(data@) ==> (r matches Some(p) ==> (p is None ==> !lists_slot(data@, slot))),
{
    match slot_hashes_entry_count(data) {
        Some(_) => Some(binary_search_slot(data, slot)),
        None => None,
    }
}

} // verus!
