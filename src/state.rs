use vstd::bytes::{spec_u64_from_le_bytes, spec_u64_to_le_bytes};
use vstd::prelude::*;

use crate::error::LookupTableError;

verus! {

/// A 32-byte account address.
pub type Pubkey = [u8; 32];

/// Number of bytes in one stored address.
pub const PUBKEY_BYTES: usize = 32;

/// Capacity of a lookup table, in addresses.
pub const LOOKUP_TABLE_MAX_ADDRESSES: usize = 256;

/// Size of the fixed header that precedes the address list.
pub const LOOKUP_TABLE_META_SIZE: usize = 56;

/// Sentinel deactivation slot of a table that was never deactivated.
pub const ACTIVE_DEACTIVATION_SLOT: u64 = 0xffff_ffff_ffff_ffff;

/// The header fields that follow the 4-byte discriminator.
pub struct LookupTableMeta {
    pub deactivation_slot: u64,
    pub last_extended_slot: u64,
    pub last_extended_slot_start_index: u8,
    pub authority_tag: u8,
    pub authority: Pubkey,
    pub _padding: u16,
}

/// Who may still change a table, as read from its header.
pub enum TableAuthority {
    Frozen,
    Mutable(Pubkey),
}

// ---------------------------------------------------------------------------
// The byte layout, field by field.
pub open spec fn has_header(d: Seq<u8>) -> bool {
    d.len() >= LOOKUP_TABLE_META_SIZE
}

pub open spec fn deactivation_slot_of(d: Seq<u8>) -> u64 {
    spec_u64_from_le_bytes(d.subrange(4, 12))
}

pub open spec fn last_extended_slot_of(d: Seq<u8>) -> u64 {
    spec_u64_from_le_bytes(d.subrange(12, 20))
}

pub open spec fn start_index_of(d: Seq<u8>) -> u8 {
    d[20]
}

pub open spec fn authority_tag_of(d: Seq<u8>) -> u8 {
    d[21]
}

pub open spec fn authority_of(d: Seq<u8>) -> Seq<u8> {
    d.subrange(22, 54)
}

/// Number of whole addresses stored after the header.
pub open spec fn entry_count_of(d: Seq<u8>) -> int {
    (d.len() - LOOKUP_TABLE_META_SIZE) / (PUBKEY_BYTES as int)
}

pub open spec fn is_frozen(d: Seq<u8>) -> bool {
    authority_tag_of(d) == 0
}

pub open spec fn is_deactivating(d: Seq<u8>) -> bool {
    deactivation_slot_of(d) != ACTIVE_DEACTIVATION_SLOT
}

/// The tagged view of the authority: `None` once the table is frozen.
pub open spec fn authority_state_of(d: Seq<u8>) -> Option<Seq<u8>> {
    if is_frozen(d) {
        None
    } else {
        Some(authority_of(d))
    }
}

/// The header bytes that a freshly created table starts with.
pub open spec fn new_header(authority: Seq<u8>) -> Seq<u8> {
    seq![1u8, 0u8, 0u8, 0u8] + spec_u64_to_le_bytes(ACTIVE_DEACTIVATION_SLOT) + spec_u64_to_le_bytes(0)
        + seq![0u8, 1u8] + authority + seq![0u8, 0u8]
}

impl LookupTableMeta {
    pub open spec fn matches(&self, d: Seq<u8>) -> bool {
        &&& self.deactivation_slot == deactivation_slot_of(d)
        &&& self.last_extended_slot == last_extended_slot_of(d)
        &&& self.last_extended_slot_start_index == start_index_of(d)
        &&& self.authority_tag == authority_tag_of(d)
        &&& self.authority@ == authority_of(d)
        &&& self._padding as int == d[54] as int + 256 * (d[55] as int)
    }
}

// ---------------------------------------------------------------------------
// Little-endian field access at fixed offsets.
pub(crate) fn read_u64_at(data: &[u8], at: usize) -> (r: u64)
    requires
        at + 8 <= data@.len(),
    ensures
        r == spec_u64_from_le_bytes(data@.subrange(at as int, at + 8)),
{
    let _n = data.len();
    let bytes = vstd::slice::slice_subrange(data, at, at + 8);
    vstd::bytes::u64_from_le_bytes(bytes)
}

/// Overwrites `src@.len()` bytes of `data` starting at `at`.
pub fn copy_into(data: &mut [u8], at: usize, src: &[u8])
    requires
        at + src@.len() <= old(data)@.len(),
    ensures
        final(data)@.len() == old(data)@.len(),
        final(data)@ == old(data)@.subrange(0, at as int) + src@ + old(data)@.subrange(
            at + src@.len(),
            old(data)@.len() as int,
        ),
{
    let n = data.len();
    let mut k: usize = 0;
    while k < src.len()
        invariant
            0 <= k <= src@.len(),
            n == old(data)@.len(),
            data@.len() == n,
            at + src@.len() <= old(data)@.len(),
            data@ == old(data)@.subrange(0, at as int) + src@.subrange(0, k as int) + old(
                data,
            )@.subrange(at + k, old(data)@.len() as int),
        decreases src@.len() - k,
    {
        data[at + k] = src[k];
        k = k + 1;
        assert(data@ =~= old(data)@.subrange(0, at as int) + src@.subrange(0, k as int) + old(
            data,
        )@.subrange(at + k, old(data)@.len() as int));
    }
    assert(src@.subrange(0, k as int) =~= src@);
}

fn write_u64_at(data: &mut [u8], at: usize, v: u64)
    requires
        at + 8 <= old(data)@.len(),
    ensures
        final(data)@.len() == old(data)@.len(),
        final(data)@ == old(data)@.subrange(0, at as int) + spec_u64_to_le_bytes(v) + old(
            data,
        )@.subrange(at + 8, old(data)@.len() as int),
{
    let bytes = vstd::bytes::u64_to_le_bytes(v);
    copy_into(data, at, bytes.as_slice());
}

/// Sets the deactivation slot of a table.
pub fn write_deactivation_slot(data: &mut [u8], slot: u64)
    requires
        has_header(old(data)@),
    ensures
        final(data)@.len() == old(data)@.len(),
        final(data)@ == old(data)@.subrange(0, 4) + spec_u64_to_le_bytes(slot) + old(
            data,
        )@.subrange(12, old(data)@.len() as int),
{
    write_u64_at(data, 4, slot);
}

/// Records a growth that starts in `slot` with `start_index` entries present.
pub fn write_last_extended(data: &mut [u8], slot: u64, start_index: u8)
    requires
        has_header(old(data)@),
    ensures
        final(data)@.len() == old(data)@.len(),
        final(data)@ == old(data)@.subrange(0, 12) + spec_u64_to_le_bytes(slot) + seq![start_index]
            + old(data)@.subrange(21, old(data)@.len() as int),
{
    write_u64_at(data, 12, slot);
    data[20] = start_index;
    assert(data@ =~= old(data)@.subrange(0, 12) + spec_u64_to_le_bytes(slot) + seq![start_index]
        + old(data)@.subrange(21, old(data)@.len() as int));
}

/// Removes the authority for good: the tag and the key become zero.
pub fn write_frozen(data: &mut [u8])
    requires
        has_header(old(data)@),
    ensures
        final(data)@ == old(data)@.subrange(0, 21) + seq![0u8] + Seq::new(32, |i: int| 0u8) + old(
            data,
        )@.subrange(54, old(data)@.len() as int),
{
    let zero: Pubkey = [0u8; 32];
    data[21] = 0;
    copy_into(data, 22, zero.as_slice());
    assert(zero@ =~= Seq::new(32, |i: int| 0u8));
    assert(data@ =~= old(data)@.subrange(0, 21) + seq![0u8] + Seq::new(32, |i: int| 0u8) + old(
        data,
    )@.subrange(54, old(data)@.len() as int));
}

/// Writes the header of a new table: initialized, never deactivated, never
/// extended, mutable by `authority_key`. Fails when `data` is shorter than
/// the header; the bytes after the header are left as they are.
pub fn serialize_new_lookup_table(data: &mut [u8], authority_key: &Pubkey) -> (r: Result<
    (),
    LookupTableError,
>)
    ensures
        r is Ok <==> has_header(old(data)@),
        r is Ok ==> final(data)@ == new_header(authority_key@) + old(data)@.subrange(
            LOOKUP_TABLE_META_SIZE as int,
            old(data)@.len() as int,
        ),
        r is Err ==> r == Err::<(), LookupTableError>(LookupTableError::AccountDataTooSmall)
            && final(data)@ == old(data)@,
{
    if data.len() < LOOKUP_TABLE_META_SIZE {
        return Err(LookupTableError::AccountDataTooSmall);
    }
    let head: [u8; 4] = [1u8, 0u8, 0u8, 0u8];
    copy_into(data, 0, head.as_slice());
    write_u64_at(data, 4, ACTIVE_DEACTIVATION_SLOT);
    write_u64_at(data, 12, 0);
    data[20] = 0;
    data[21] = 1;
    copy_into(data, 22, authority_key.as_slice());
    data[54] = 0;
    data[55] = 0;
    assert(head@ =~= seq![1u8, 0u8, 0u8, 0u8]);
    assert(data@ =~= new_header(authority_key@) + old(data)@.subrange(
        LOOKUP_TABLE_META_SIZE as int,
        old(data)@.len() as int,
    ));
    Ok(())
}

/// Reads the deactivation slot of a table.
pub fn read_deactivation_slot(data: &[u8]) -> (r: u64)
    requires
        has_header(data@),
    ensures
        r == deactivation_slot_of(data@),
{
    read_u64_at(data, 4)
}

/// Reads the slot of the table's most recent growth.
pub fn read_last_extended_slot(data: &[u8]) -> (r: u64)
    requires
        has_header(data@),
    ensures
        r == last_extended_slot_of(data@),
{
    read_u64_at(data, 12)
}

/// Copies the 32-byte authority field out of the header.
fn authority_key_of(data: &[u8]) -> (key: Pubkey)
    requires
        has_header(data@),
    ensures
        key@ == authority_of(data@),
{
    let mut key: Pubkey = [0u8; 32];
    let mut k: usize = 0;
    while k < 32
        invariant
            0 <= k <= 32,
            has_header(data@),
            key@.len() == 32,
            forall|j: int| 0 <= j < k ==> key@[j] == data@[22 + j],
        decreases 32 - k,
    {
        key[k] = data[22 + k];
        k = k + 1;
    }
    assert(key@ =~= authority_of(data@));
    key
}

/// Reads the authority of a table: `Frozen` when its tag is zero.
pub fn read_authority(data: &[u8]) -> (r: TableAuthority)
    requires
        has_header(data@),
    ensures
        authority_state_of(data@) == match r {
            TableAuthority::Frozen => None,
            TableAuthority::Mutable(k) => Some(k@),
        },
{
    if data[21] == 0 {
        TableAuthority::Frozen
    } else {
        TableAuthority::Mutable(authority_key_of(data))
    }
}

/// Whether the table's authority field holds exactly `key`.
pub fn authority_matches(data: &[u8], key: &Pubkey) -> (r: bool)
    requires
        has_header(data@),
    ensures
        r == (authority_of(data@) == key@),
{
    let mut k: usize = 0;
    while k < 32
        invariant
            0 <= k <= 32,
            has_header(data@),
            key@.len() == 32,
            forall|j: int| 0 <= j < k ==> key@[j] == data@[22 + j],
        decreases 32 - k,
    {
        if data[22 + k] != key[k] {
            assert(authority_of(data@)[k as int] != key@[k as int]);
            return false;
        }
        k = k + 1;
    }
    assert(authority_of(data@) =~= key@);
    true
}

/// Decodes the header fields after the discriminator.
pub fn read_meta(data: &[u8]) -> (r: Option<LookupTableMeta>)
    ensures
        r is Some <==> has_header(data@),
        r matches Some(m) ==> m.matches(data@),
{
    if data.len() < LOOKUP_TABLE_META_SIZE {
        return None;
    }
    let authority = authority_key_of(data);
    Some(
        LookupTableMeta {
            deactivation_slot: read_u64_at(data, 4),
            last_extended_slot: read_u64_at(data, 12),
            last_extended_slot_start_index: data[20],
            authority_tag: data[21],
            authority,
            _padding: (data[54] as u16) + 256 * (data[55] as u16),
        },
    )
}

} // verus!
