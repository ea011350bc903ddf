//! Radio link manager: the decisions of the sense/receive/transmit cycle.
//!
//! Each cycle senses the channel first. An occupied channel means listen; a
//! free channel means transmit once the retransmit interval — the fixed
//! [`RETRANSMIT_INTERVAL_MS`] of about a second — has elapsed; anything else
//! means idle briefly and go round again. A received buffer must open with
//! the magic word before any decryption is spent on it; what the codec then
//! accepts is handed on as plaintext for the display mailbox. The link is
//! best-effort broadcast: no acknowledgment, no ordering, and each logical
//! transmission goes on the air [`TRANSMIT_PKT_TIMES`] times.

use vstd::prelude::*;
use crate::codec::{
    open_spec, open_in_place, seal_spec, seal_in_place, spec_magic_bytes, magic_bytes, CodecError,
    MAGIC_WORD_SIZE, MAX_MSG_LEN,
};

verus! {

/// Carrier frequency of the radio link.
pub const LORA_FREQUENCY_IN_HZ: u32 = 915_000_000;

/// Transmit power, bounded by the hardware's boosted limit.
pub const TX_POWER: i32 = 20;

/// How often a transmission is attempted while the channel stays free.
pub const RETRANSMIT_INTERVAL_MS: u64 = 1000;

/// How many times each logical transmission is physically repeated, to raise
/// the chance of reception on an unacknowledged link.
pub const TRANSMIT_PKT_TIMES: usize = 2;

/// What channel-activity detection reported for this cycle.
#[derive(Debug, Clone, Copy, PartialEq, Eq, Structural)]
pub enum CadOutcome {
    /// Someone is on the air: listen.
    Active,
    /// The channel is free.
    Inactive,
    /// Detection itself failed; not fatal, the cycle is retried.
    Failed,
}

/// What the link manager does next.
#[derive(Debug, Clone, Copy, PartialEq, Eq, Structural)]
pub enum LinkAction {
    /// Attempt a reception.
    Receive,
    /// Build, seal and transmit a frame.
    Transmit,
    /// Idle briefly and sense again.
    Idle,
}

/// The cycle's decision: an occupied channel is listened to; a free channel
/// is transmitted on once the retransmit interval has elapsed; a failed
/// detection, or a free channel before the interval, means idle.
pub open spec fn spec_next_action(cad: CadOutcome, elapsed_ms: u64) -> LinkAction {
    match cad {
        CadOutcome::Active => LinkAction::Receive,
        CadOutcome::Inactive => if elapsed_ms > RETRANSMIT_INTERVAL_MS {
            LinkAction::Transmit
        } else {
            LinkAction::Idle
        },
        CadOutcome::Failed => LinkAction::Idle,
    }
}

/// Decides one cycle of the sense/receive/transmit loop from the channel
/// sense and the time since the last transmission.
pub fn next_action(cad: CadOutcome, elapsed_ms: u64) -> (a: LinkAction)
    ensures
        a == spec_next_action(cad, elapsed_ms),
{
    match cad {
        CadOutcome::Active => LinkAction::Receive,
        CadOutcome::Inactive => {
            if elapsed_ms > RETRANSMIT_INTERVAL_MS {
                LinkAction::Transmit
            } else {
                LinkAction::Idle
            }
        },
        CadOutcome::Failed => LinkAction::Idle,
    }
}

/// A received byte string opens with the magic word.
pub open spec fn magic_ok(data: Seq<u8>) -> bool {
    data.len() >= 8 && data.take(8) == spec_magic_bytes()
}

/// The magic-word gate: a reception of `num_read` bytes is kept only when it
/// starts with the magic word; anything else is discarded as foreign noise
/// before any decryption is spent on it.
pub fn accept_received(buf: &Vec<u8>, num_read: usize) -> (r: Option<usize>)
    requires
        num_read <= buf@.len(),
    ensures
        r == if magic_ok(buf@.take(num_read as int)) {
            Some(num_read)
        } else {
            None::<usize>
        },
{
    if num_read < MAGIC_WORD_SIZE {
        assert(!magic_ok(buf@.take(num_read as int)));
        return None;
    }
    let magic = magic_bytes();
    let mut i: usize = 0;
    while i < MAGIC_WORD_SIZE
        invariant
            0 <= i <= 8,
            8 <= num_read <= buf@.len(),
            magic@ == spec_magic_bytes(),
            magic@.len() == 8,
            forall|j: int| 0 <= j < i ==> buf@[j] == magic@[j],
        decreases 8 - i,
    {
        if buf[i] != magic[i] {
            assert(buf@.take(num_read as int)[i as int] != spec_magic_bytes()[i as int]);
            return None;
        }
        i += 1;
    }
    proof {
        assert(buf@.take(num_read as int).take(8) =~= spec_magic_bytes());
    }
    Some(num_read)
}

/// How one reception ended.
#[derive(Debug)]
pub enum RxOutcome {
    /// The frame was ours and its tag verified: the decrypted message, with
    /// the magic prefix already stripped.
    Delivered(Vec<u8>),
    /// The bytes did not start with the magic word: foreign traffic or
    /// noise, discarded unexamined.
    Noise,
    /// The frame looked like ours but the codec refused it; discarded.
    Rejected(CodecError),
}

/// Handles one completed reception of `num_read` bytes sitting at the front
/// of `buf`: gates on the magic word, opens the frame, and returns the
/// plaintext message — or says exactly why the bytes were discarded. Only a
/// gated frame ever reaches decryption.
pub fn handle_reception(key: u128, buf: &mut Vec<u8>, num_read: usize) -> (r: RxOutcome)
    requires
        num_read <= old(buf)@.len(),
    ensures
        ({
            let rx = old(buf)@.take(num_read as int);
            match r {
                RxOutcome::Noise => !magic_ok(rx) && final(buf)@ == old(buf)@,
                RxOutcome::Rejected(e) => magic_ok(rx) && open_spec(key, rx) is None && e == (
                if rx.len() < 40 {
                    CodecError::Malformed
                } else {
                    CodecError::AuthenticationFailed
                })
                // the buffer still holds the raw bytes, never half-decrypted ones
                 && final(buf)@ == rx,
                RxOutcome::Delivered(msg) => magic_ok(rx) && (open_spec(key, rx) matches Some(fp)
                    && msg@ == fp.skip(8)) && final(buf)@ == rx.take(8),
            }
        }),
{
    let ghost rx = old(buf)@.take(num_read as int);
    match accept_received(buf, num_read) {
        None => RxOutcome::Noise,
        Some(_) => {
            buf.truncate(num_read);
            assert(buf@ == rx);
            match open_in_place(key, buf) {
                Ok(()) => {
                    let ghost framed = open_spec(key, rx)->Some_0;
                    let mut msg = buf.split_off(MAGIC_WORD_SIZE);
                    proof {
                        assert(msg@ =~= framed.skip(8));
                    }
                    RxOutcome::Delivered(msg)
                },
                Err(e) => RxOutcome::Rejected(e),
            }
        },
    }
}

/// A fresh framed plaintext: the magic word followed by the message text.
pub fn build_frame(text: &Vec<u8>) -> (r: Vec<u8>)
    ensures
        r@ == spec_magic_bytes() + text@,
        r@.len() == text@.len() + 8,
{
    let mut r = magic_bytes();
    r.extend_from_slice(text.as_slice());
    proof {
        assert(r@ =~= spec_magic_bytes() + text@);
    }
    r
}

/// Builds and seals one outgoing message under a fresh nonce: the returned
/// frame is ready to transmit, opens back to the framed text under the same
/// key, and passes the receiver's magic-word gate. Fails exactly when the
/// text cannot fit the radio's payload beside magic, tag and nonce.
pub fn seal_message(key: u128, nonce: &Vec<u8>, text: &Vec<u8>) -> (r: Result<
    Vec<u8>,
    CodecError,
>)
    requires
        nonce@.len() == 16,
    ensures
        r is Ok <==> text@.len() <= MAX_MSG_LEN,
        r matches Ok(frame) ==> {
            &&& frame@ == seal_spec(key, nonce@, spec_magic_bytes() + text@)
            &&& frame@.len() == text@.len() + 40
            &&& open_spec(key, frame@) == Some(spec_magic_bytes() + text@)
            &&& magic_ok(frame@)
        },
        r is Err ==> r == Err::<Vec<u8>, CodecError>(CodecError::BufferTooSmall) && text@.len()
            > MAX_MSG_LEN,
{
    let mut frame = build_frame(text);
    match seal_in_place(key, nonce, &mut frame) {
        Ok(()) => {
            proof {
                let framed = spec_magic_bytes() + text@;
                assert(frame@.take(8) =~= framed.take(8));
                assert(framed.take(8) =~= spec_magic_bytes());
            }
            Ok(frame)
        },
        Err(e) => Err(e),
    }
}

} // verus!
