//! Messages between the host and the enclave, and their framing on the stream:
//! each message is its CBOR encoding preceded by the encoding's length as a
//! 4-byte big-endian number, at most `VSOCK_MAX_MESSAGE_LEN`.

use vstd::prelude::*;

verus! {

/// The largest CBOR encoding a message may have, in bytes (1 MiB).
pub const VSOCK_MAX_MESSAGE_LEN: usize = 1024 * 1024;

/// A request from the host to the enclave.
#[derive(Debug)]
pub enum VsockHostRequest {
    CardanoCreateWallet {
        aws_region: String,
        aws_access_key_id: String,
        aws_secret_access_key: String,
        aws_session_token: String,
        kms_proxy_port: String,
        kms_key_id: String,
    },
    CardanoSignTransaction {
        tx_cbor: Vec<u8>,
        partial_sign: bool,
        aws_region: String,
        aws_access_key_id: String,
        aws_secret_access_key: String,
        aws_session_token: String,
        kms_proxy_port: String,
        aes_gcm_nonce: [u8; 12],
        encrypted_secret_key: Vec<u8>,
        kms_ciphertext: Vec<u8>,
    },
}

/// A successful answer of the enclave.
#[derive(Debug)]
pub enum VsockEnclaveResponse {
    VsockEnclaveCardanoCreateWalletData {
        encrypted_secret_key: Vec<u8>,
        aes_gcm_nonce: [u8; 12],
        kms_ciphertext: Vec<u8>,
        aws_region: String,
        kms_key_id: String,
        account_index_0_xpub_bech32: String,
    },
}

/// The enclave's answer: a response, or why the request failed.
pub type VsockEnclaveResult = Result<VsockEnclaveResponse, String>;

/// Why a message could not be received.
#[derive(Debug)]
pub enum VsockReceiveError {
    Io(std::io::Error),
    MessageTooLarge { len: usize, max: usize },
    Deserialization(::serde_cbor::Error),
}

/// Why a message could not be sent.
#[derive(Debug)]
pub enum VsockSendError {
    Io(std::io::Error),
    MessageTooLarge { len: usize, max: usize },
    Serialization(::serde_cbor::Error),
}

/// The 4-byte big-endian form of a number below 2^32.
pub open spec fn be32_bytes(x: nat) -> Seq<u8> {
    seq![(x / 0x100_0000) as u8, ((x / 0x1_0000) % 0x100) as u8, ((x / 0x100) % 0x100) as u8, (x % 0x100) as u8]
}

/// The number that 4 big-endian bytes stand for.
pub open spec fn be32_value(b: Seq<u8>) -> nat {
    (b[0] * 0x100_0000 + b[1] * 0x1_0000 + b[2] * 0x100 + b[3]) as nat
}

/// The frame of a message: its length in 4 big-endian bytes, then the message.
pub open spec fn frame_of(payload: Seq<u8>) -> Seq<u8> {
    be32_bytes(payload.len()) + payload
}

/// Frames an encoded message for sending; an encoding longer than
/// `VSOCK_MAX_MESSAGE_LEN` is refused.
pub fn frame_message(payload: &[u8]) -> (r: Result<Vec<u8>, VsockSendError>)
    ensures
        r is Ok <==> payload@.len() <= VSOCK_MAX_MESSAGE_LEN,
        r matches Ok(f) ==> f@ == frame_of(payload@),
        r matches Err(e) ==> e matches VsockSendError::MessageTooLarge { len, max }
            && len == payload@.len() && max == VSOCK_MAX_MESSAGE_LEN,
{
    let len = payload.len();
    if len > VSOCK_MAX_MESSAGE_LEN {
        return Err(VsockSendError::MessageTooLarge { len, max: VSOCK_MAX_MESSAGE_LEN });
    }
    let x: u32 = len as u32;
    let mut frame: Vec<u8> = Vec::new();
    frame.push((x / 0x100_0000) as u8);
    frame.push(((x / 0x1_0000) % 0x100) as u8);
    frame.push(((x / 0x100) % 0x100) as u8);
    frame.push((x % 0x100) as u8);
    assert(frame@.subrange(0, 4) =~= be32_bytes(len as nat));
    let mut i: usize = 0;
    while i < len
        invariant
            len == payload@.len(),
            i <= len,
            frame@.len() == 4 + i,
            frame@.subrange(0, 4) == be32_bytes(len as nat),
            forall|j: int| 0 <= j < i ==> frame@[4 + j] == payload@[j],
        decreases len - i,
    {
        let ghost prev = frame@;
        frame.push(payload[i]);
        assert(frame@.subrange(0, 4) =~= prev.subrange(0, 4));
        i = i + 1;
    }
    assert(frame@ =~= frame_of(payload@));
    Ok(frame)
}

/// Reads the length of the next message from its 4-byte big-endian header; a
/// length above `VSOCK_MAX_MESSAGE_LEN` is refused.
pub fn read_message_length(header: [u8; 4]) -> (r: Result<usize, VsockReceiveError>)
    ensures
        r is Ok <==> be32_value(header@) <= VSOCK_MAX_MESSAGE_LEN,
        r matches Ok(n) ==> n == be32_value(header@),
        r matches Err(e) ==> e matches VsockReceiveError::MessageTooLarge { len, max }
            && len == be32_value(header@) && max == VSOCK_MAX_MESSAGE_LEN,
{
    let v: u64 = (header[0] as u64) * 0x100_0000 + (header[1] as u64) * 0x1_0000 + (header[2] as u64) * 0x100
        + (header[3] as u64);
    assert(v <= 0xffff_ffff);
    if v > VSOCK_MAX_MESSAGE_LEN as u64 {
        let len = v as usize;
        return Err(VsockReceiveError::MessageTooLarge { len, max: VSOCK_MAX_MESSAGE_LEN });
    }
    Ok(v as usize)
}

/// A number below 2^32 is read back from its big-endian bytes.
pub proof fn lemma_be32_roundtrip(x: nat)
    requires
        x < 0x1_0000_0000,
    ensures
        be32_value(be32_bytes(x)) == x,
{
    let b0 = x / 0x100_0000;
    let b1 = (x / 0x1_0000) % 0x100;
    let b2 = (x / 0x100) % 0x100;
    let b3 = x % 0x100;
    assert(b0 < 0x100);
    assert(b0 * 0x100_0000 + b1 * 0x1_0000 + b2 * 0x100 + b3 == x) by (nonlinear_arith)
        requires
            b0 == x / 0x100_0000,
            b1 == (x / 0x1_0000) % 0x100,
            b2 == (x / 0x100) % 0x100,
            b3 == x % 0x100,
            x < 0x1_0000_0000,
    ;
}

/// Framing round trip: the header of a framed message gives back the
/// message's length, and the bytes after the header are the message.
pub proof fn lemma_frame_roundtrip(payload: Seq<u8>)
    requires
        payload.len() <= VSOCK_MAX_MESSAGE_LEN,
    ensures
        be32_value(frame_of(payload).subrange(0, 4)) == payload.len(),
        frame_of(payload).subrange(4, frame_of(payload).len() as int) == payload,
{
    lemma_be32_roundtrip(payload.len());
    assert(frame_of(payload).subrange(0, 4) =~= be32_bytes(payload.len()));
    assert(frame_of(payload).subrange(4, frame_of(payload).len() as int) =~= payload);
}

} // verus!
