//! Short-range wireless gateway: the decisions behind the byte field that a
//! mobile client reads and writes.
//!
//! The service exposes one characteristic. Instead of generated handler
//! plumbing, the mapping from an incoming event to what the device does is an
//! explicit table over characteristic handles with an explicit accept/reject
//! result: reads and foreign writes are acknowledged and ignored, a write to
//! the message characteristic that fits its buffer is accepted and forwarded
//! toward the coordination fabric, and an oversized one is rejected.

use vstd::prelude::*;
use crate::fabric::{DisplayMessage, MAX_DISPLAY_TEXT};

verus! {

/// Identifies the device's one service.
pub const SERVICE_UUID: u128 = 0xFB94_E026_23E5_4BD9_97D6_74F2_5D57_9393;

/// Identifies the readable/writable message characteristic.
pub const CHARACTERISTIC_UUID: u128 = 0x9354_50A0_FAC2_4B9E_82FF_13E4_9971_0728;

/// The handles the connected stack assigned to the service's attributes.
#[derive(Debug, Clone, Copy, PartialEq, Eq, Structural)]
pub struct CharacteristicTable {
    /// Handle of the message characteristic.
    pub message_handle: u16,
}

/// One event arriving from a connected client.
#[derive(Debug)]
pub enum GattEvent {
    /// The client reads a characteristic.
    Read {
        /// The attribute being read.
        handle: u16,
    },
    /// The client writes a characteristic.
    Write {
        /// The attribute being written.
        handle: u16,
        /// The bytes written.
        value: Vec<u8>,
    },
    /// Anything else the connection reports; acknowledged and ignored.
    Other,
}

/// The device's explicit answer to one event: whether the event is
/// acknowledged or refused, and what the write carried for the rest of the
/// device, if anything.
#[derive(Debug)]
pub struct GattResponse {
    /// The event is acknowledged to the client; a refused one is answered
    /// with an error instead.
    pub accept: bool,
    /// A message written into the message characteristic, to be forwarded
    /// toward the display mailbox and the radio.
    pub forward: Option<Vec<u8>>,
}

/// Whether a write to the message characteristic fits its 128-byte buffer.
pub open spec fn spec_write_fits(value: Seq<u8>) -> bool {
    value.len() <= MAX_DISPLAY_TEXT
}

/// Answers one client event against the characteristic table. Reads, foreign
/// writes and other events are accepted with nothing forwarded; a write to
/// the message characteristic is accepted and forwarded exactly when it fits
/// the characteristic's buffer, and rejected otherwise.
pub fn handle_gatt_event(table: &CharacteristicTable, event: GattEvent) -> (r: GattResponse)
    ensures
        r.forward matches Some(v) ==> DisplayMessage::Message(v).wf(),
        match event {
            GattEvent::Write { handle, value } => {
                if handle == table.message_handle {
                    &&& r.accept == spec_write_fits(value@)
                    &&& r.forward == if spec_write_fits(value@) {
                        Some(value)
                    } else {
                        None::<Vec<u8>>
                    }
                } else {
                    r.accept && r.forward is None
                }
            },
            _ => r.accept && r.forward is None,
        },
{
    match event {
        GattEvent::Write { handle, value } => {
            if handle == table.message_handle {
                if value.len() <= MAX_DISPLAY_TEXT {
                    GattResponse { accept: true, forward: Some(value) }
                } else {
                    GattResponse { accept: false, forward: None }
                }
            } else {
                GattResponse { accept: true, forward: None }
            }
        },
        _ => GattResponse { accept: true, forward: None },
    }
}

} // verus!
