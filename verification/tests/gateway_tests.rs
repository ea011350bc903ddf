//! The gateway's event table and the station codes.

use lewoc::gateway::{handle_gatt_event, CharacteristicTable, GattEvent};
use lewoc::station::Station;
use lewoc::utils::random_u32_in_range;

const TABLE: CharacteristicTable = CharacteristicTable { message_handle: 42 };

#[test]
fn message_write_is_accepted_and_forwarded() {
    let r = handle_gatt_event(&TABLE, GattEvent::Write { handle: 42, value: b"Hello".to_vec() });
    assert!(r.accept);
    assert_eq!(r.forward, Some(b"Hello".to_vec()));
}

#[test]
fn oversized_write_is_rejected() {
    let r = handle_gatt_event(&TABLE, GattEvent::Write { handle: 42, value: vec![0u8; 129] });
    assert!(!r.accept);
    assert_eq!(r.forward, None);
}

#[test]
fn largest_fitting_write_is_accepted() {
    let r = handle_gatt_event(&TABLE, GattEvent::Write { handle: 42, value: vec![0u8; 128] });
    assert!(r.accept);
    assert_eq!(r.forward, Some(vec![0u8; 128]));
}

#[test]
fn foreign_write_is_acknowledged_and_ignored() {
    let r = handle_gatt_event(&TABLE, GattEvent::Write { handle: 7, value: b"x".to_vec() });
    assert!(r.accept);
    assert_eq!(r.forward, None);
}

#[test]
fn reads_and_other_events_are_acknowledged() {
    let r = handle_gatt_event(&TABLE, GattEvent::Read { handle: 42 });
    assert!(r.accept);
    assert_eq!(r.forward, None);
    let r = handle_gatt_event(&TABLE, GattEvent::Other);
    assert!(r.accept);
    assert_eq!(r.forward, None);
}

#[test]
fn station_codes_round_trip() {
    let all = [
        Station::SFKingStreet,
        Station::SF22ndStreet,
        Station::Bayshore,
        Station::Burlingame,
        Station::SanMateo,
        Station::SanJoseDiridon,
    ];
    for (i, s) in all.iter().enumerate() {
        assert_eq!(s.as_u8(), i as u8);
        assert_eq!(Station::from_u8(i as u8), Some(*s));
    }
    assert_eq!(Station::from_u8(6), None);
    assert_eq!(Station::from_u8(255), None);
}

#[test]
fn station_names() {
    assert_eq!(Station::SFKingStreet.name(), "San Francisco");
    assert_eq!(Station::SF22ndStreet.name(), "22nd Street");
    assert_eq!(Station::Bayshore.name(), "Bayshore");
    assert_eq!(Station::Burlingame.name(), "Burlingame");
    assert_eq!(Station::SanMateo.name(), "San Mateo");
    assert_eq!(Station::SanJoseDiridon.name(), "San Jose");
}

#[test]
fn random_draw_lands_in_range() {
    assert_eq!(random_u32_in_range(10, 3, 8), 3);
    assert_eq!(random_u32_in_range(12, 3, 8), 5);
    for raw in 0..64 {
        let r = random_u32_in_range(raw, 3, 8);
        assert!((3..8).contains(&r));
    }
}
