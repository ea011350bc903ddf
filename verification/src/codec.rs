//! Packet codec: authenticated-encryption framing over a byte buffer.
//!
//! A buffer is either a framed plaintext, `magic (8 bytes) | plaintext`, or a
//! framed ciphertext, `magic (8 bytes) | ciphertext | tag (16 bytes) |
//! nonce (16 bytes)`, never both at once. [`seal_in_place`] turns the former
//! into the latter, [`open_in_place`] undoes it, refusing buffers whose tag
//! does not verify.

use vstd::prelude::*;
use vstd::bytes::*;
use vstd::slice::slice_subrange;
use ascon_aead::aead::{AeadInOut, KeyInit};
use ascon_aead::aead::inout::InOutBuf;

verus! {

/// Every frame starts with this word (little-endian on the wire); anything
/// else on the air is discarded as noise before decryption is attempted.
pub const MAGIC_WORD: u64 = 0x1234_5678_9012_3452;

/// Length of the magic word on the wire.
pub const MAGIC_WORD_SIZE: usize = 8;

/// The radio's maximum payload, and so the largest frame the codec produces.
pub const MAX_PAYLOAD_LEN: usize = 222;

/// Length of the authentication tag.
pub const MAC_SIZE: usize = 16;

/// Length of the nonce appended to each frame.
pub const NONCE_SIZE: usize = 16;

/// Largest message that still fits a frame beside magic, tag and nonce.
pub const MAX_MSG_LEN: usize = MAX_PAYLOAD_LEN - MAC_SIZE - NONCE_SIZE - MAGIC_WORD_SIZE;

/// Why sealing or opening a buffer failed.
#[derive(Debug, Clone, Copy, PartialEq, Eq, Structural)]
pub enum CodecError {
    /// Sealing: the frame would exceed the radio's maximum payload.
    BufferTooSmall,
    /// Opening: the buffer is too short to even hold magic, tag and nonce.
    Malformed,
    /// Opening: the tag does not verify; the buffer still holds ciphertext.
    AuthenticationFailed,
}

/// The magic word as it appears on the wire.
pub open spec fn spec_magic_bytes() -> Seq<u8> {
    spec_u64_to_le_bytes(MAGIC_WORD)
}

/// The encryption key as it is split into bytes wherever the codec needs it.
pub open spec fn spec_key_bytes(key: u128) -> Seq<u8> {
    spec_u128_to_le_bytes(key)
}

/// What Ascon-AEAD128 encryption returns for a key, nonce and plaintext:
/// the ciphertext (as long as the plaintext) followed by the 16-byte tag.
pub uninterp spec fn ascon_enc(key: Seq<u8>, nonce: Seq<u8>, pt: Seq<u8>) -> Seq<u8>;

/// What Ascon-AEAD128 decryption returns for a key, nonce, ciphertext and
/// tag: the plaintext when the tag verifies, nothing otherwise.
pub uninterp spec fn ascon_dec(key: Seq<u8>, nonce: Seq<u8>, ct: Seq<u8>, tag: Seq<u8>) -> Option<
    Seq<u8>,
>;

/// Relies on `ascon_aead::AsconAead128::encrypt_inout_detached` (via
/// `aead::AeadInOut`): deterministic Ascon-AEAD128 encryption with no
/// associated data. It yields a ciphertext of the plaintext's length plus a
/// 16-byte tag, decryption of which under the same key and nonce returns the
/// plaintext; with empty associated data the call cannot fail.
#[verifier::external_body]
fn ascon_encrypt_detached(key: &[u8], nonce: &[u8], pt: &[u8]) -> (r: Vec<u8>)
    requires
        key@.len() == 16,
        nonce@.len() == 16,
    ensures
        r@ == ascon_enc(key@, nonce@, pt@),
        r@.len() == pt@.len() + 16,
        ascon_dec(key@, nonce@, r@.take(pt@.len() as int), r@.skip(pt@.len() as int)) == Some(
            pt@,
        ),
{
    let cipher = ascon_aead::AsconAead128::new(key.try_into().unwrap());
    let mut buf = pt.to_vec();
    let tag = cipher
        .encrypt_inout_detached(nonce.try_into().unwrap(), &[], InOutBuf::from(buf.as_mut_slice()))
        .unwrap();
    buf.extend_from_slice(&tag);
    buf
}

/// Relies on `ascon_aead::AsconAead128::decrypt_inout_detached` (via
/// `aead::AeadInOut`): recomputes the tag over the ciphertext and compares in
/// constant time; on a match it returns the unique plaintext whose encryption
/// under this key and nonce is the given ciphertext and tag, otherwise it
/// zeroes its working buffer (discarded here) and reports an error.
#[verifier::external_body]
fn ascon_decrypt_detached(key: &[u8], nonce: &[u8], ct: &[u8], tag: &[u8]) -> (r: Option<Vec<u8>>)
    requires
        key@.len() == 16,
        nonce@.len() == 16,
        tag@.len() == 16,
    ensures
        r is Some <==> ascon_dec(key@, nonce@, ct@, tag@) is Some,
        r matches Some(pt) ==> {
            &&& pt@ == ascon_dec(key@, nonce@, ct@, tag@)->Some_0
            &&& pt@.len() == ct@.len()
            &&& ascon_enc(key@, nonce@, pt@) == ct@ + tag@
        },
{
    let cipher = ascon_aead::AsconAead128::new(key.try_into().unwrap());
    let mut buf = ct.to_vec();
    let in_out = InOutBuf::from(buf.as_mut_slice());
    match cipher.decrypt_inout_detached(
        nonce.try_into().unwrap(),
        &[],
        in_out,
        tag.try_into().unwrap(),
    ) {
        Ok(()) => Some(buf),
        Err(_) => None,
    }
}

/// The framed ciphertext that sealing a framed plaintext produces.
pub open spec fn seal_spec(key: u128, nonce: Seq<u8>, framed: Seq<u8>) -> Seq<u8>
    recommends
        framed.len() >= 8,
        nonce.len() == 16,
{
    framed.take(8) + ascon_enc(spec_key_bytes(key), nonce, framed.skip(8)) + nonce
}

/// The framed plaintext that opening a framed ciphertext yields, if its tag
/// verifies under the nonce it carries.
pub open spec fn open_spec(key: u128, frame: Seq<u8>) -> Option<Seq<u8>> {
    if frame.len() < 40 {
        None
    } else {
        let n = frame.len() as int;
        match ascon_dec(
            spec_key_bytes(key),
            frame.subrange(n - 16, n),
            frame.subrange(8, n - 32),
            frame.subrange(n - 32, n - 16),
        ) {
            Some(pt) => Some(frame.take(8) + pt),
            None => None,
        }
    }
}

/// The magic word, little-endian, ready to prefix a plaintext.
pub fn magic_bytes() -> (r: Vec<u8>)
    ensures
        r@ == spec_magic_bytes(),
        r@.len() == 8,
{
    proof {
        lemma_auto_spec_u64_to_from_le_bytes();
    }
    u64_to_le_bytes(MAGIC_WORD)
}

/// Encrypts a framed plaintext in place. The first 8 bytes (normally the
/// magic word) stay as they are; the rest is encrypted, and tag and nonce are
/// appended. Fails, leaving the buffer untouched, exactly when the resulting
/// frame would not fit the radio's payload.
pub fn seal_in_place(key: u128, nonce: &Vec<u8>, buf: &mut Vec<u8>) -> (r: Result<(), CodecError>)
    requires
        nonce@.len() == 16,
        old(buf)@.len() >= 8,
    ensures
        r is Ok <==> old(buf)@.len() + 32 <= 222,
        r is Ok ==> final(buf)@ == seal_spec(key, nonce@, old(buf)@),
        r is Ok ==> final(buf)@.len() == old(buf)@.len() + 32,
        r is Ok ==> open_spec(key, final(buf)@) == Some(old(buf)@),
        r is Err ==> final(buf)@ == old(buf)@ && r == Err::<(), CodecError>(
            CodecError::BufferTooSmall,
        ),
{
    if buf.len() > MAX_PAYLOAD_LEN - MAC_SIZE - NONCE_SIZE {
        return Err(CodecError::BufferTooSmall);
    }
    proof {
        lemma_auto_spec_u128_to_from_le_bytes();
    }
    let ghost framed = buf@;
    let key_bytes = u128_to_le_bytes(key);
    let n = buf.len();
    let pt = slice_subrange(buf.as_slice(), 8, n);
    assert(pt@ == framed.skip(8));
    let ct_tag = ascon_encrypt_detached(key_bytes.as_slice(), nonce.as_slice(), pt);
    buf.truncate(8);
    buf.extend_from_slice(ct_tag.as_slice());
    buf.extend_from_slice(nonce.as_slice());
    proof {
        assert(buf@ =~= framed.take(8) + ct_tag@ + nonce@);
        lemma_sealed_frame_opens(key, nonce@, framed, ct_tag@, buf@);
    }
    Ok(())
}

/// The layout facts that connect a just-sealed frame back to `open_spec`:
/// the frame splits into magic, ciphertext, tag and nonce exactly where
/// `open_spec` cuts it, so opening returns the original framed plaintext.
proof fn lemma_sealed_frame_opens(
    key: u128,
    nonce: Seq<u8>,
    framed: Seq<u8>,
    ct_tag: Seq<u8>,
    frame: Seq<u8>,
)
    requires
        framed.len() >= 8,
        nonce.len() == 16,
        ct_tag.len() == framed.len() - 8 + 16,
        ct_tag == ascon_enc(spec_key_bytes(key), nonce, framed.skip(8)),
        ascon_dec(
            spec_key_bytes(key),
            nonce,
            ct_tag.take(framed.len() - 8),
            ct_tag.skip(framed.len() - 8),
        ) == Some(framed.skip(8)),
        frame == framed.take(8) + ct_tag + nonce,
    ensures
        frame == seal_spec(key, nonce, framed),
        frame.len() == framed.len() + 32,
        open_spec(key, frame) == Some(framed),
{
    let n = frame.len() as int;
    assert(frame.subrange(n - 16, n) =~= nonce);
    assert(frame.subrange(8, n - 32) =~= ct_tag.take(framed.len() - 8));
    assert(frame.subrange(n - 32, n - 16) =~= ct_tag.skip(framed.len() - 8));
    assert(frame.take(8) =~= framed.take(8));
    assert(frame.take(8) + framed.skip(8) =~= framed);
}

/// Decrypts a framed ciphertext in place: on success the buffer shrinks to
/// the first 8 bytes followed by the plaintext. A buffer too short for magic,
/// tag and nonce is malformed; one whose tag does not verify is rejected, and
/// in both cases the buffer is left exactly as it was, so no half-decrypted
/// bytes can be mistaken for plaintext.
pub fn open_in_place(key: u128, buf: &mut Vec<u8>) -> (r: Result<(), CodecError>)
    ensures
        r is Ok <==> open_spec(key, old(buf)@) is Some,
        r is Ok ==> final(buf)@ == open_spec(key, old(buf)@)->Some_0,
        r is Err ==> final(buf)@ == old(buf)@,
        old(buf)@.len() < 40 ==> r == Err::<(), CodecError>(CodecError::Malformed),
        r is Err && old(buf)@.len() >= 40 ==> r == Err::<(), CodecError>(
            CodecError::AuthenticationFailed,
        ),
{
    if buf.len() < 40 {
        return Err(CodecError::Malformed);
    }
    proof {
        lemma_auto_spec_u128_to_from_le_bytes();
    }
    let n = buf.len();
    let key_bytes = u128_to_le_bytes(key);
    let ct = slice_subrange(buf.as_slice(), 8, n - 32);
    let tag = slice_subrange(buf.as_slice(), n - 32, n - 16);
    let nonce = slice_subrange(buf.as_slice(), n - 16, n);
    match ascon_decrypt_detached(key_bytes.as_slice(), nonce, ct, tag) {
        Some(pt) => {
            let ghost frame = buf@;
            buf.truncate(8);
            buf.extend_from_slice(pt.as_slice());
            proof {
                assert(buf@ =~= frame.take(8) + pt@);
            }
            Ok(())
        },
        None => Err(CodecError::AuthenticationFailed),
    }
}

} // verus!
