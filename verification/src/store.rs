//! Configuration store: a log-structured record file over a fixed range of
//! non-volatile memory, held here as a byte image of that range.
//!
//! The range is divided into 32-byte slots. A record fills one slot: a start
//! marker, the 16-byte little-endian key, zero padding, and an end marker
//! written last, so a record interrupted by power loss lacks its end marker
//! and is ignored as corrupt — a record is read whole or not at all.
//! [`load_info`] scans every slot in written order and returns the last valid
//! record; [`store_info`] erases the whole range and writes exactly one
//! record into the first slot.

use vstd::prelude::*;
use vstd::bytes::*;
use vstd::slice::slice_subrange;

verus! {

/// Key used when no configured key is stored.
pub const DEFAULT_ENCRYPTION_KEY: u128 = 0xF22B_4E48_59B3_4D73_9C8D_559B_2C12_2C5D;

/// Base address of the data region in non-volatile memory.
pub const DATA_START_ADDR: u32 = 0x0010_0000;

/// Offset of the configuration log within the data region.
pub const INFO_START_OFFSET: u32 = 0;

/// Serialized size of a stored record's payload: one 128-bit key.
pub const INFO_SER_SIZE: usize = 16;

/// A record slot: the payload padded to the medium's write granularity.
pub const RECORD_SIZE: usize = 32;

/// First byte of a valid record: the payload length it carries.
pub const RECORD_MARK: u8 = 0x10;

/// Last byte of a valid record, written last: a record without it is
/// ignored as the remnant of an interrupted write.
pub const RECORD_END: u8 = 0xA5;

/// The byte value an erased medium reads back.
pub const ERASED_BYTE: u8 = 0xFF;

/// The device configuration. A key of value zero is never persisted as
/// configured: it stands for "absent", and the caller falls back to
/// [`DEFAULT_ENCRYPTION_KEY`].
#[derive(Debug, Clone, Copy, PartialEq, Eq, Structural)]
pub struct Info {
    /// Symmetric encryption key for all packets sent and received, or absent.
    pub encryption_key: Option<u128>,
}

impl Info {
    /// A zero key is represented as absent, never as configured.
    pub open spec fn wf(self) -> bool {
        self.encryption_key != Some(0u128)
    }

    /// The configuration carried by a stored key value.
    pub open spec fn spec_of_key(key: u128) -> Info {
        Info { encryption_key: if key == 0 { None } else { Some(key) } }
    }

    /// The key value a configuration is persisted as.
    pub open spec fn spec_stored_key(self) -> u128 {
        match self.encryption_key {
            Some(k) => k,
            None => 0,
        }
    }

    /// Reads a configuration out of its on-medium payload; a zero key
    /// becomes an absent one.
    pub fn try_from_stored(stored: &StoredInfo) -> (r: Option<Info>)
        ensures
            r == Some(Info::spec_of_key(stored.encryption_key)),
            r->Some_0.wf(),
    {
        Some(
            Info {
                encryption_key: if stored.encryption_key == 0 {
                    None
                } else {
                    Some(stored.encryption_key)
                },
            },
        )
    }
}

impl Default for Info {
    /// No key configured.
    fn default() -> (r: Info)
        ensures
            r == (Info { encryption_key: None::<u128> }),
    {
        Info { encryption_key: None }
    }
}

/// The key a device runs with: the configured one, or the compiled-in
/// default where none is configured.
pub fn effective_key(info: &Info) -> (r: u128)
    ensures
        r == match info.encryption_key {
            Some(k) => k,
            None => DEFAULT_ENCRYPTION_KEY,
        },
        info.wf() ==> r != 0,
{
    match info.encryption_key {
        Some(k) => k,
        None => DEFAULT_ENCRYPTION_KEY,
    }
}

/// On-medium representation of [`Info`]: the raw key value, zero when absent.
#[derive(Debug, Clone, Copy, PartialEq, Eq, Structural)]
pub struct StoredInfo {
    /// The persisted key value; zero stands for "absent".
    pub encryption_key: u128,
}

/// Why serializing a record failed.
#[derive(Debug, Clone, Copy, PartialEq, Eq, Structural)]
pub enum SerializationError {
    /// The buffer cannot hold a record payload.
    BufferTooSmall,
}

impl StoredInfo {
    /// Writes the payload over the first 16 bytes of `buffer`, leaving the
    /// rest as it was; fails exactly when the buffer is shorter than that.
    pub fn serialize_into(&self, buffer: &mut Vec<u8>) -> (r: Result<usize, SerializationError>)
        ensures
            r is Ok <==> old(buffer)@.len() >= 16,
            r is Ok ==> r == Ok::<usize, SerializationError>(16usize) && final(buffer)@
                == spec_u128_to_le_bytes(self.encryption_key) + old(buffer)@.skip(16),
            r is Err ==> r == Err::<usize, SerializationError>(SerializationError::BufferTooSmall)
                && final(buffer)@ == old(buffer)@,
    {
        if buffer.len() < INFO_SER_SIZE {
            return Err(SerializationError::BufferTooSmall);
        }
        proof {
            lemma_auto_spec_u128_to_from_le_bytes();
        }
        let mut out = u128_to_le_bytes(self.encryption_key);
        let mut j = INFO_SER_SIZE;
        while j < buffer.len()
            invariant
                16 <= j <= buffer@.len(),
                out@ == spec_u128_to_le_bytes(self.encryption_key) + buffer@.subrange(16, j as int),
            decreases buffer@.len() - j,
        {
            let b = buffer[j];
            out.push(b);
            j += 1;
            proof {
                assert(out@ =~= spec_u128_to_le_bytes(self.encryption_key) + buffer@.subrange(
                    16,
                    j as int,
                ));
            }
        }
        proof {
            assert(buffer@.subrange(16, buffer@.len() as int) =~= buffer@.skip(16));
        }
        *buffer = out;
        Ok(INFO_SER_SIZE)
    }

    /// Reads the payload back from the first 16 bytes of `buffer`; fails
    /// exactly when the buffer is shorter than that.
    pub fn deserialize_from(buffer: &[u8]) -> (r: Result<StoredInfo, SerializationError>)
        ensures
            r is Ok <==> buffer@.len() >= 16,
            r matches Ok(s) ==> s.encryption_key == spec_u128_from_le_bytes(buffer@.take(16)),
            r is Err ==> r == Err::<StoredInfo, SerializationError>(
                SerializationError::BufferTooSmall,
            ),
    {
        if buffer.len() < INFO_SER_SIZE {
            return Err(SerializationError::BufferTooSmall);
        }
        let key_bytes = slice_subrange(buffer, 0, INFO_SER_SIZE);
        let key = u128_from_le_bytes(key_bytes);
        assert(key_bytes@ =~= buffer@.take(16));
        Ok(StoredInfo { encryption_key: key })
    }
}

/// The log's range in the medium is two erase sectors, which leaves room for
/// wear-friendly rotation.
pub fn sector_size(erase_size: u32) -> (r: u32)
    requires
        erase_size <= 0x7FFF_FFFF,
    ensures
        r == 2 * erase_size,
{
    2 * erase_size
}

/// The absolute address range that the configuration log occupies.
pub fn flash_range(offset: u32, erase_size: u32) -> (r: (u32, u32))
    requires
        erase_size <= 0x7FFF_FFFF,
        DATA_START_ADDR + offset + 2 * erase_size <= u32::MAX,
    ensures
        r.0 == DATA_START_ADDR + offset,
        r.1 == DATA_START_ADDR + offset + 2 * erase_size,
{
    (DATA_START_ADDR + offset, DATA_START_ADDR + offset + sector_size(erase_size))
}

/// The 32 bytes of a record slot holding `key`.
pub open spec fn spec_record_bytes(key: u128) -> Seq<u8> {
    seq![RECORD_MARK] + spec_u128_to_le_bytes(key) + Seq::new(14, |i: int| 0u8) + seq![RECORD_END]
}

/// The slot at index `i` of a medium image.
pub open spec fn spec_slot(m: Seq<u8>, i: int) -> Seq<u8> {
    m.subrange(32 * i, 32 * i + 32)
}

/// How many whole slots the medium holds.
pub open spec fn spec_num_slots(m: Seq<u8>) -> int {
    m.len() as int / 32
}

/// A slot holds a whole record: both markers are in place.
pub open spec fn spec_valid_record(s: Seq<u8>) -> bool {
    s.len() == 32 && s[0] == RECORD_MARK && s[31] == RECORD_END
}

/// The key a record slot carries.
pub open spec fn spec_record_key(s: Seq<u8>) -> u128 {
    spec_u128_from_le_bytes(s.subrange(1, 17))
}

/// The index of the last valid record among the first `upto` slots, if any.
pub open spec fn spec_last_valid(m: Seq<u8>, upto: int) -> Option<int>
    decreases upto,
{
    if upto <= 0 {
        None
    } else if spec_valid_record(spec_slot(m, upto - 1)) {
        Some(upto - 1)
    } else {
        spec_last_valid(m, upto - 1)
    }
}

/// What loading from a medium image returns: the configuration of the most
/// recently written record, or nothing where no whole record exists.
pub open spec fn load_spec(m: Seq<u8>) -> Option<Info> {
    match spec_last_valid(m, spec_num_slots(m)) {
        Some(i) => Some(Info::spec_of_key(spec_record_key(spec_slot(m, i)))),
        None => None,
    }
}

/// What storing `key` leaves on a medium of length `len`: one record in the
/// first slot, everything after it erased.
pub open spec fn store_spec(len: nat, key: u128) -> Seq<u8> {
    Seq::new(
        len,
        |i: int|
            if i < 32 {
                spec_record_bytes(key)[i]
            } else {
                ERASED_BYTE
            },
    )
}

/// Scans all whole slots of the medium image in written order and returns
/// the configuration of the last valid record, or nothing if no record
/// exists or none is whole — a normal outcome on an erased medium, after
/// which the caller falls back to the compiled-in default key.
pub fn load_info(medium: &Vec<u8>) -> (r: Option<Info>)
    ensures
        r == load_spec(medium@),
        r matches Some(info) ==> info.wf(),
{
    proof {
        lemma_auto_spec_u128_to_from_le_bytes();
    }
    let n_slots = medium.len() / RECORD_SIZE;
    let mut found: Option<Info> = None;
    let mut i: usize = 0;
    proof {
        vstd::arithmetic::div_mod::lemma_fundamental_div_mod(medium@.len() as int, 32);
        vstd::arithmetic::div_mod::lemma_mod_bound(medium@.len() as int, 32);
    }
    while i < n_slots
        invariant
            n_slots == spec_num_slots(medium@),
            0 <= i <= n_slots,
            32 * n_slots <= medium@.len(),
            medium@.len() <= usize::MAX,
            found == match spec_last_valid(medium@, i as int) {
                Some(j) => Some(Info::spec_of_key(spec_record_key(spec_slot(medium@, j)))),
                None => None::<Info>,
            },
            found matches Some(info) ==> info.wf(),
        decreases n_slots - i,
    {
        assert(32 * (i + 1) <= 32 * n_slots);
        let base = RECORD_SIZE * i;
        if medium[base] == RECORD_MARK && medium[base + RECORD_SIZE - 1] == RECORD_END {
            let key_bytes = slice_subrange(medium.as_slice(), base + 1, base + 1 + INFO_SER_SIZE);
            let key = u128_from_le_bytes(key_bytes);
            proof {
                assert(key_bytes@ =~= spec_slot(medium@, i as int).subrange(1, 17));
                assert(spec_valid_record(spec_slot(medium@, i as int)));
            }
            found = Info::try_from_stored(&StoredInfo { encryption_key: key });
        } else {
            proof {
                assert(!spec_valid_record(spec_slot(medium@, i as int)));
            }
        }
        i += 1;
    }
    found
}

/// Erases the whole medium image and writes exactly one record, carrying the
/// configuration's key (zero when absent), into the first slot.
pub fn store_info(medium: &mut Vec<u8>, info: &Info)
    requires
        old(medium)@.len() >= 32,
    ensures
        final(medium)@ == store_spec(old(medium)@.len(), info.spec_stored_key()),
        final(medium)@.len() == old(medium)@.len(),
{
    proof {
        lemma_auto_spec_u128_to_from_le_bytes();
    }
    let n = medium.len();
    let key = match info.encryption_key {
        Some(k) => k,
        None => 0,
    };
    let mut out = u128_to_le_bytes(key);
    out.insert(0, RECORD_MARK);
    proof {
        assert(out@ =~= seq![RECORD_MARK] + spec_u128_to_le_bytes(key) + Seq::new(
            0nat,
            |i: int| 0u8,
        ));
    }
    let mut j: usize = 0;
    while j < 14
        invariant
            out@ == seq![RECORD_MARK] + spec_u128_to_le_bytes(key) + Seq::new(j as nat, |i: int| 0u8),
            j <= 14,
        decreases 14 - j,
    {
        out.push(0);
        j += 1;
        proof {
            assert(out@ =~= seq![RECORD_MARK] + spec_u128_to_le_bytes(key) + Seq::new(
                j as nat,
                |i: int| 0u8,
            ));
        }
    }
    out.push(RECORD_END);
    proof {
        assert(out@ =~= spec_record_bytes(key));
    }
    while out.len() < n
        invariant
            32 <= out@.len() <= n,
            out@.take(32) == spec_record_bytes(key),
            forall|i: int| 32 <= i < out@.len() ==> out@[i] == ERASED_BYTE,
        decreases n - out@.len(),
    {
        let ghost prev = out@;
        out.push(ERASED_BYTE);
        proof {
            assert(out@.take(32) =~= prev.take(32));
        }
    }
    proof {
        assert(out@ =~= store_spec(old(medium)@.len(), info.spec_stored_key()));
    }
    *medium = out;
}

/// After a store, a load finds exactly the configuration that was stored:
/// the one record written is the last valid one on the medium, and a zero
/// key reads back as an absent one.
pub proof fn lemma_store_then_load(len: nat, info: Info)
    requires
        len >= 32,
        info.wf(),
    ensures
        load_spec(store_spec(len, info.spec_stored_key())) == Some(info),
{
    let key = info.spec_stored_key();
    let m = store_spec(len, key);
    lemma_auto_spec_u128_to_from_le_bytes();
    assert(spec_slot(m, 0) =~= spec_record_bytes(key));
    assert(spec_valid_record(spec_slot(m, 0)));
    let n_slots = spec_num_slots(m);
    vstd::arithmetic::div_mod::lemma_fundamental_div_mod(len as int, 32);
    vstd::arithmetic::div_mod::lemma_mod_bound(len as int, 32);
    assert(n_slots >= 1);
    lemma_later_slots_invalid(m, n_slots);
    assert(spec_last_valid(m, n_slots) == Some(0int));
    assert(spec_slot(m, 0).subrange(1, 17) =~= spec_u128_to_le_bytes(key));
    assert(spec_record_key(spec_slot(m, 0)) == key);
    assert(Info::spec_of_key(key) == info);
}

/// In a freshly stored medium every slot after the first starts with the
/// erased byte, so the record in the first slot is the last valid one.
proof fn lemma_later_slots_invalid(m: Seq<u8>, upto: int)
    requires
        upto >= 1,
        32 * upto <= m.len(),
        spec_valid_record(spec_slot(m, 0)),
        forall|i: int| 32 <= i < m.len() ==> m[i] == ERASED_BYTE,
    ensures
        spec_last_valid(m, upto) == Some(0int),
    decreases upto,
{
    if upto == 1 {
    } else {
        assert(spec_slot(m, upto - 1)[0] == m[32 * (upto - 1)]);
        assert(!spec_valid_record(spec_slot(m, upto - 1)));
        lemma_later_slots_invalid(m, upto - 1);
    }
}

/// On an erased or uninitialized medium — every byte reading back as the
/// erased value — a load returns "absent", and the caller then runs with the
/// compiled-in default key.
pub proof fn lemma_erased_absent(m: Seq<u8>)
    requires
        forall|i: int| 0 <= i < m.len() ==> m[i] == ERASED_BYTE,
    ensures
        load_spec(m) is None,
{
    lemma_no_valid_slot(m, spec_num_slots(m));
}

/// No prefix of an erased medium holds a valid record.
proof fn lemma_no_valid_slot(m: Seq<u8>, upto: int)
    requires
        32 * upto <= m.len(),
        forall|i: int| 0 <= i < m.len() ==> m[i] == ERASED_BYTE,
    ensures
        spec_last_valid(m, upto) is None,
    decreases upto,
{
    if upto <= 0 {
    } else {
        assert(spec_slot(m, upto - 1)[0] == m[32 * (upto - 1)]);
        assert(!spec_valid_record(spec_slot(m, upto - 1)));
        lemma_no_valid_slot(m, upto - 1);
    }
}

} // verus!
