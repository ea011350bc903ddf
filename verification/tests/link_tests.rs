//! The radio link manager against its contract: the magic-word gate, the
//! cycle decisions, and one reception end to end.

use lewoc::codec::CodecError;
use lewoc::link::{
    accept_received, build_frame, handle_reception, next_action, seal_message, CadOutcome,
    LinkAction, RxOutcome, TRANSMIT_PKT_TIMES,
};

const KEY: u128 = 0xF22B_4E48_59B3_4D73_9C8D_559B_2C12_2C5D;

fn nonce() -> Vec<u8> {
    (200u8..216u8).collect()
}

#[test]
fn magic_gate_accepts_own_frames() {
    let frame = seal_message(KEY, &nonce(), &b"Hello".to_vec()).unwrap();
    assert_eq!(accept_received(&frame, frame.len()), Some(frame.len()));
}

#[test]
fn magic_gate_discards_foreign_bytes() {
    let mut frame = seal_message(KEY, &nonce(), &b"Hello".to_vec()).unwrap();
    frame[0] ^= 0xFF;
    assert_eq!(accept_received(&frame, frame.len()), None);
    // Too short for the magic word at all.
    let noise = vec![0x12u8; 7];
    assert_eq!(accept_received(&noise, noise.len()), None);
}

#[test]
fn foreign_bytes_never_reach_decryption() {
    let mut buf = vec![0u8; 64];
    buf[0] = 0x99;
    let n = buf.len();
    match handle_reception(KEY, &mut buf, n) {
        RxOutcome::Noise => {}
        _ => panic!("a buffer without the magic word is noise, nothing else"),
    }
}

#[test]
fn gated_but_short_frame_is_rejected_as_malformed() {
    let mut buf = build_frame(&b"tiny".to_vec());
    let n = buf.len();
    match handle_reception(KEY, &mut buf, n) {
        RxOutcome::Rejected(e) => assert_eq!(e, CodecError::Malformed),
        _ => panic!("a magic-prefixed frame shorter than tag and nonce is malformed"),
    }
}

#[test]
fn reception_delivers_the_message() {
    let frame = seal_message(KEY, &nonce(), &b"Hello".to_vec()).unwrap();
    let mut buf = frame.clone();
    buf.resize(222, 0);
    match handle_reception(KEY, &mut buf, frame.len()) {
        RxOutcome::Delivered(msg) => assert_eq!(msg, b"Hello"),
        _ => panic!("a well-sealed frame must be delivered"),
    }
}

#[test]
fn reception_under_wrong_key_is_rejected() {
    let frame = seal_message(KEY, &nonce(), &b"Hello".to_vec()).unwrap();
    let mut buf = frame.clone();
    match handle_reception(KEY ^ 1, &mut buf, frame.len()) {
        RxOutcome::Rejected(e) => assert_eq!(e, CodecError::AuthenticationFailed),
        _ => panic!("a frame sealed under another key must not be delivered"),
    }
}

#[test]
fn cycle_decisions() {
    // Occupied channel: listen, whatever the timer says.
    assert_eq!(next_action(CadOutcome::Active, 0), LinkAction::Receive);
    assert_eq!(next_action(CadOutcome::Active, 5000), LinkAction::Receive);
    // Free channel: transmit only once the interval has elapsed.
    assert_eq!(next_action(CadOutcome::Inactive, 1000), LinkAction::Idle);
    assert_eq!(next_action(CadOutcome::Inactive, 1001), LinkAction::Transmit);
    // A failed detection is retried, not fatal.
    assert_eq!(next_action(CadOutcome::Failed, 5000), LinkAction::Idle);
}

#[test]
fn frame_is_magic_then_text() {
    let frame = build_frame(&b"Hi".to_vec());
    assert_eq!(&frame[..8], &0x1234_5678_9012_3452u64.to_le_bytes());
    assert_eq!(&frame[8..], b"Hi");
}

#[test]
fn each_transmission_is_repeated_twice() {
    assert_eq!(TRANSMIT_PKT_TIMES, 2);
}
