//! The canonical message of a claim, its digest, and the layout of the
//! verification record that attests to a signature over that digest.

use vstd::prelude::*;
use vstd::slice::slice_subrange;
use vstd::slice::slice_to_vec;
use crate::error::MalformedRecord;
use crate::keys::Pubkey;
use crate::keys::PUBKEY_BYTES;

verus! {

/// Length of an Ed25519 signature, and so of a proof.
pub const SIGNATURE_BYTES: usize = 64;

/// Length of a digest.
pub const DIGEST_BYTES: usize = 32;

/// Length of the fixed header of a verification record.
pub const HEADER_BYTES: usize = 16;

/// Length of the canonical message: a key and a 4-byte ticket id.
pub const MESSAGE_BYTES: usize = 36;

/// The four bytes of `x`, least significant first.
pub open spec fn le_bytes_u32(x: u32) -> Seq<u8> {
    seq![
        (x % 256) as u8,
        (x / 256 % 256) as u8,
        (x / 65536 % 256) as u8,
        (x / 16777216) as u8,
    ]
}

/// The number whose two little-endian bytes stand at `at` and `at + 1`.
pub open spec fn le_u16_at(data: Seq<u8>, at: int) -> int {
    data[at] + 256 * data[at + 1]
}

/// The canonical message for a claim: the recipient's bytes followed by the
/// ticket id as four little-endian bytes, with nothing between them.
pub open spec fn message_spec(recipient: Seq<u8>, nft_id: u32) -> Seq<u8> {
    recipient + le_bytes_u32(nft_id)
}

/// The SHA-256 hash of `data`, as the hashing library computes it.
pub uninterp spec fn sha256(data: Seq<u8>) -> Seq<u8>;

/// The digest that a signer must have signed to authorize `recipient` to
/// claim ticket `nft_id`.
pub open spec fn expected_digest(recipient: Seq<u8>, nft_id: u32) -> Seq<u8> {
    sha256(message_spec(recipient, nft_id))
}

/// Builds the canonical message for (`recipient`, `nft_id`).
pub fn build_message(recipient: &Pubkey, nft_id: u32) -> (message: Vec<u8>)
    ensures
        message@ == message_spec(recipient@, nft_id),
        message@.len() == MESSAGE_BYTES,
{
    let mut message: Vec<u8> = Vec::with_capacity(MESSAGE_BYTES);
    let mut i: usize = 0;
    while i < 32
        invariant
            i <= 32,
            message@ == recipient@.subrange(0, i as int),
        decreases 32 - i,
    {
        message.push(recipient.bytes[i]);
        i += 1;
    }
    assert(recipient@.subrange(0, 32) == recipient@);
    message.push((nft_id % 256) as u8);
    message.push((nft_id / 256 % 256) as u8);
    message.push((nft_id / 65536 % 256) as u8);
    message.push((nft_id / 16777216) as u8);
    assert(message@ == message_spec(recipient@, nft_id));
    message
}

/// The canonical message is unambiguous: two requests have the same message
/// only if they name the same recipient and the same ticket.
pub proof fn lemma_message_unambiguous(
    recipient_a: Seq<u8>,
    nft_id_a: u32,
    recipient_b: Seq<u8>,
    nft_id_b: u32,
)
    requires
        recipient_a.len() == 32,
        recipient_b.len() == 32,
        message_spec(recipient_a, nft_id_a) == message_spec(recipient_b, nft_id_b),
    ensures
        recipient_a == recipient_b,
        nft_id_a == nft_id_b,
{
    let a = message_spec(recipient_a, nft_id_a);
    let b = message_spec(recipient_b, nft_id_b);
    assert(recipient_a =~= a.subrange(0, 32));
    assert(recipient_b =~= b.subrange(0, 32));
    assert(le_bytes_u32(nft_id_a) =~= a.subrange(32, 36));
    assert(le_bytes_u32(nft_id_b) =~= b.subrange(32, 36));
    let ba = le_bytes_u32(nft_id_a);
    let bb = le_bytes_u32(nft_id_b);
    assert(ba[0] == bb[0] && ba[1] == bb[1] && ba[2] == bb[2] && ba[3] == bb[3]);
    lemma_le_bytes_u32_value(nft_id_a);
    lemma_le_bytes_u32_value(nft_id_b);
}

/// A number is the sum of its little-endian bytes, each weighted by its
/// place.
pub proof fn lemma_le_bytes_u32_value(x: u32)
    ensures
        le_bytes_u32(x).len() == 4,
        x == le_bytes_u32(x)[0] + 256 * le_bytes_u32(x)[1] + 65536 * le_bytes_u32(x)[2] + 16777216
            * le_bytes_u32(x)[3],
{
}

/// Calls `solana_program::hash::hashv` on the one slice `message` and takes
/// the bytes of the hash. Trusted: the result is the SHA-256 hash of the
/// message, a function of its bytes alone. Off chain the call computes the
/// hash in process, with the `sha2` feature that `solana-program` switches
/// on, and returns on every input.
#[verifier::external_body]
fn hashv_bytes(message: &[u8]) -> (hash: [u8; 32])
    ensures
        hash@ == sha256(message@),
{
    solana_program::hash::hashv(&[message]).to_bytes()
}

/// The SHA-256 digest of `message`.
pub fn digest(message: &[u8]) -> (hash: [u8; 32])
    ensures
        hash@ == sha256(message@),
{
    hashv_bytes(message)
}

/// A record that sits beside a claim in the same atomic unit: who produced
/// it, and its raw bytes.
#[derive(Clone, Debug, PartialEq, Eq)]
pub struct SiblingRecord {
    /// The program that produced the record.
    pub program_id: Pubkey,
    /// The record's bytes.
    pub data: Vec<u8>,
}

/// Who produced a record, and its bytes.
pub struct SiblingRecordView {
    pub program_id: Seq<u8>,
    pub data: Seq<u8>,
}

impl View for SiblingRecord {
    type V = SiblingRecordView;

    open spec fn view(&self) -> SiblingRecordView {
        SiblingRecordView { program_id: self.program_id@, data: self.data@ }
    }
}

/// What a verification record attests to: that `signature` is a valid
/// signature by `public_key` over `message`.
#[derive(Clone, Debug, PartialEq, Eq)]
pub struct Attestation {
    pub signature: [u8; 64],
    pub public_key: Pubkey,
    pub message: Vec<u8>,
}

/// The three attested byte strings.
pub struct AttestationView {
    pub signature: Seq<u8>,
    pub public_key: Seq<u8>,
    pub message: Seq<u8>,
}

impl View for Attestation {
    type V = AttestationView;

    open spec fn view(&self) -> AttestationView {
        AttestationView {
            signature: self.signature@,
            public_key: self.public_key@,
            message: self.message@,
        }
    }
}

/// Where the record says its signature starts.
pub open spec fn signature_offset(data: Seq<u8>) -> int {
    le_u16_at(data, 2)
}

/// Where the record says its public key starts.
pub open spec fn public_key_offset(data: Seq<u8>) -> int {
    le_u16_at(data, 6)
}

/// Where the record says its signed message starts.
pub open spec fn message_offset(data: Seq<u8>) -> int {
    le_u16_at(data, 10)
}

/// How long the record says its signed message is.
pub open spec fn message_size(data: Seq<u8>) -> int {
    le_u16_at(data, 12)
}

/// A record is well formed when it holds the whole header, declares exactly
/// one signature, and its signature, public key and message all lie within
/// it.
pub open spec fn record_well_formed(data: Seq<u8>) -> bool {
    &&& data.len() >= HEADER_BYTES
    &&& data[0] == 1
    &&& signature_offset(data) + SIGNATURE_BYTES <= data.len()
    &&& public_key_offset(data) + PUBKEY_BYTES <= data.len()
    &&& message_offset(data) + message_size(data) <= data.len()
}

/// The signature, public key and message that a record points at.
pub open spec fn attestation_of(data: Seq<u8>) -> AttestationView {
    AttestationView {
        signature: data.subrange(signature_offset(data), signature_offset(data) + SIGNATURE_BYTES),
        public_key: data.subrange(public_key_offset(data), public_key_offset(data) + PUBKEY_BYTES),
        message: data.subrange(message_offset(data), message_offset(data) + message_size(data)),
    }
}

/// Reads the two little-endian bytes at `at`.
fn read_u16_le(data: &[u8], at: usize) -> (value: usize)
    requires
        at + 1 < data@.len(),
    ensures
        value == le_u16_at(data@, at as int),
        value <= 0xffff,
{
    let lo: usize = data[at] as usize;
    let hi: usize = data[at + 1] as usize;
    lo + 256 * hi
}

/// Extracts the attested signature, public key and message from the bytes of
/// a verification record.
///
/// The record starts with the number of signatures (one byte, which must be
/// 1) and a padding byte, followed by seven little-endian 16-bit fields:
/// signature offset, signature instruction index, public key offset, public
/// key instruction index, message offset, message size, message instruction
/// index.
pub fn parse_sibling_record(data: &[u8]) -> (parsed: Result<Attestation, MalformedRecord>)
    ensures
        parsed is Ok <==> record_well_formed(data@),
        parsed matches Ok(attestation) ==> attestation@ == attestation_of(data@),
{
    if data.len() < HEADER_BYTES {
        return Err(MalformedRecord {  });
    }
    if data[0] != 1 {
        return Err(MalformedRecord {  });
    }
    let sig_offset = read_u16_le(data, 2);
    let pubkey_offset = read_u16_le(data, 6);
    let message_offset = read_u16_le(data, 10);
    let message_size = read_u16_le(data, 12);
    if sig_offset + SIGNATURE_BYTES > data.len() {
        return Err(MalformedRecord {  });
    }
    if pubkey_offset + PUBKEY_BYTES > data.len() {
        return Err(MalformedRecord {  });
    }
    if message_offset + message_size > data.len() {
        return Err(MalformedRecord {  });
    }
    let mut signature = [0u8; 64];
    let mut i: usize = 0;
    while i < 64
        invariant
            i <= 64,
            sig_offset + 64 <= data@.len() <= usize::MAX,
            forall|j: int| 0 <= j < i ==> signature[j] == data@[sig_offset + j],
        decreases 64 - i,
    {
        signature[i] = data[sig_offset + i];
        i += 1;
    }
    let mut key_bytes = [0u8; 32];
    let mut k: usize = 0;
    while k < 32
        invariant
            k <= 32,
            pubkey_offset + 32 <= data@.len() <= usize::MAX,
            forall|j: int| 0 <= j < k ==> key_bytes[j] == data@[pubkey_offset + j],
        decreases 32 - k,
    {
        key_bytes[k] = data[pubkey_offset + k];
        k += 1;
    }
    let message = slice_to_vec(slice_subrange(data, message_offset, message_offset + message_size));
    let attestation = Attestation { signature, public_key: Pubkey::new(key_bytes), message };
    assert(attestation@.signature =~= attestation_of(data@).signature);
    assert(attestation@.public_key =~= attestation_of(data@).public_key);
    Ok(attestation)
}

/// Whether two byte strings are the same.
pub fn same_bytes(a: &[u8], b: &[u8]) -> (same: bool)
    ensures
        same == (a@ == b@),
{
    if a.len() != b.len() {
        return false;
    }
    let mut i: usize = 0;
    while i < a.len()
        invariant
            i <= a@.len(),
            a@.len() == b@.len(),
            forall|j: int| 0 <= j < i ==> a@[j] == b@[j],
        decreases a@.len() - i,
    {
        if a[i] != b[i] {
            return false;
        }
        i += 1;
    }
    assert(a@ =~= b@);
    true
}

} // verus!
