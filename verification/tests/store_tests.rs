//! The configuration store against its contract: the absent-config default
//! on an erased medium, the store-then-load round trip across an erase
//! cycle, and the record serialization.

use lewoc::store::{
    effective_key, flash_range, load_info, sector_size, store_info, Info, SerializationError,
    StoredInfo, DEFAULT_ENCRYPTION_KEY, RECORD_SIZE,
};

fn erased_medium(len: usize) -> Vec<u8> {
    vec![0xFF; len]
}

#[test]
fn erased_medium_loads_absent() {
    let medium = erased_medium(8192);
    assert!(load_info(&medium).is_none());
}

#[test]
fn absent_config_falls_back_to_default_key() {
    let medium = erased_medium(8192);
    let info = load_info(&medium).unwrap_or_default();
    assert_eq!(info.encryption_key, None);
    assert_eq!(effective_key(&info), DEFAULT_ENCRYPTION_KEY);
}

#[test]
fn store_then_load_round_trips() {
    let mut medium = erased_medium(8192);
    let info = Info { encryption_key: Some(0xDEAD_BEEF_u128) };
    store_info(&mut medium, &info);
    assert_eq!(load_info(&medium), Some(info));
}

#[test]
fn load_store_load_is_idempotent() {
    let mut medium = erased_medium(8192);
    // First boot: nothing stored, run with the default.
    let boot = load_info(&medium).unwrap_or_default();
    store_info(&mut medium, &boot);
    assert_eq!(load_info(&medium), Some(boot.clone()));
    // Across another erase cycle the same configuration comes back.
    store_info(&mut medium, &boot);
    assert_eq!(load_info(&medium), Some(boot));
}

#[test]
fn second_store_overwrites_first() {
    let mut medium = erased_medium(8192);
    store_info(&mut medium, &Info { encryption_key: Some(1) });
    store_info(&mut medium, &Info { encryption_key: Some(2) });
    assert_eq!(load_info(&medium), Some(Info { encryption_key: Some(2) }));
}

#[test]
fn zero_key_is_never_configured() {
    let mut medium = erased_medium(8192);
    store_info(&mut medium, &Info { encryption_key: None });
    assert_eq!(load_info(&medium), Some(Info { encryption_key: None }));
}

#[test]
fn last_record_wins() {
    // Two whole records in the log: the most recently written one is
    // authoritative.
    let mut medium = erased_medium(128);
    store_info(&mut medium, &Info { encryption_key: Some(1) });
    let mut second = erased_medium(RECORD_SIZE);
    let mut scratch = erased_medium(RECORD_SIZE);
    store_info(&mut scratch, &Info { encryption_key: Some(9) });
    second.copy_from_slice(&scratch);
    medium[RECORD_SIZE..2 * RECORD_SIZE].copy_from_slice(&second);
    assert_eq!(load_info(&medium), Some(Info { encryption_key: Some(9) }));
}

#[test]
fn torn_record_is_ignored() {
    let mut medium = erased_medium(64);
    store_info(&mut medium, &Info { encryption_key: Some(5) });
    // A crash mid-write leaves the record without its end marker: the whole
    // record is ignored, never a half-read key.
    medium[RECORD_SIZE - 1] = 0xFF;
    assert!(load_info(&medium).is_none());
}

#[test]
fn serialize_round_trips() {
    let stored = StoredInfo { encryption_key: 0x0102_0304_0506_0708_090A_0B0C_0D0E_0F10 };
    let mut buffer = vec![0u8; 32];
    assert_eq!(stored.serialize_into(&mut buffer), Ok(16));
    let back = StoredInfo::deserialize_from(&buffer).unwrap();
    assert_eq!(back, stored);
}

#[test]
fn serialize_is_little_endian() {
    let stored = StoredInfo { encryption_key: 0x0201 };
    let mut buffer = vec![0u8; 16];
    stored.serialize_into(&mut buffer).unwrap();
    assert_eq!(buffer[0], 0x01);
    assert_eq!(buffer[1], 0x02);
    assert_eq!(&buffer[2..], &[0u8; 14]);
}

#[test]
fn short_buffers_are_refused() {
    let stored = StoredInfo { encryption_key: 1 };
    let mut buffer = vec![0u8; 15];
    assert_eq!(stored.serialize_into(&mut buffer), Err(SerializationError::BufferTooSmall));
    assert_eq!(
        StoredInfo::deserialize_from(&buffer),
        Err(SerializationError::BufferTooSmall)
    );
}

#[test]
fn try_from_stored_maps_zero_to_absent() {
    assert_eq!(
        Info::try_from_stored(&StoredInfo { encryption_key: 0 }),
        Some(Info { encryption_key: None })
    );
    assert_eq!(
        Info::try_from_stored(&StoredInfo { encryption_key: 3 }),
        Some(Info { encryption_key: Some(3) })
    );
}

#[test]
fn configured_key_is_effective() {
    let info = Info { encryption_key: Some(42) };
    assert_eq!(effective_key(&info), 42);
}

#[test]
fn log_range_is_two_erase_sectors() {
    assert_eq!(sector_size(4096), 8192);
    let (start, end) = flash_range(0, 4096);
    assert_eq!(start, 0x0010_0000);
    assert_eq!(end, 0x0010_2000);
}
