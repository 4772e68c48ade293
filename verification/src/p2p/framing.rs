//! Length-prefixed message framing.
//!
//! Messages are framed as:
//! - 4 bytes: network magic
//! - 4 bytes: big-endian message length
//! - N bytes: the serialized message
use vstd::prelude::*;
use crate::p2p::error::P2pError;

verus! {

/// Network magic bytes identifying the Tunnels protocol ("TUNL").
pub const NETWORK_MAGIC: [u8; 4] = [0x54, 0x55, 0x4E, 0x4C];

/// Maximum message size in bytes (1 MB).
pub const MAX_MESSAGE_SIZE: usize = 1048576;

/// Header size: 4 bytes magic + 4 bytes length.
pub const HEADER_SIZE: usize = 8;

/// The number that four bytes spell in big-endian order.
pub open spec fn be_u32(b0: u8, b1: u8, b2: u8, b3: u8) -> nat {
    (b0 as nat) * 16777216 + (b1 as nat) * 65536 + (b2 as nat) * 256 + (b3 as nat)
}

/// Whether the first four bytes of `src` are the network magic.
pub open spec fn has_magic(src: Seq<u8>) -> bool {
    src[0] == 0x54u8 && src[1] == 0x55u8 && src[2] == 0x4Eu8 && src[3] == 0x4Cu8
}

/// The length announced by the header at the start of `src`.
pub open spec fn announced_length(src: Seq<u8>) -> nat {
    be_u32(src[4], src[5], src[6], src[7])
}

/// One decoding step on the buffered bytes `src`, given the length already
/// read from a header (if any): the new pending length and the outcome.
/// `Ok(Some(n))` means a complete frame whose payload is the `n` bytes after
/// the header; `Ok(None)` means more bytes are needed.
pub open spec fn decode_step(current: Option<usize>, src: Seq<u8>) -> (Option<usize>, Result<Option<usize>, P2pError>) {
    if current is None && src.len() < HEADER_SIZE {
        (None, Ok(None))
    } else if current is None && !has_magic(src) {
        (
            None,
            Err(P2pError::InvalidMagic { expected: NETWORK_MAGIC, actual: [src[0], src[1], src[2], src[3]] }),
        )
    } else if current is None && announced_length(src) > MAX_MESSAGE_SIZE {
        (
            None,
            Err(P2pError::MessageTooLarge { size: announced_length(src) as usize, max: MAX_MESSAGE_SIZE }),
        )
    } else {
        let length: usize = match current {
            Some(l) => l,
            None => announced_length(src) as usize,
        };
        if src.len() < HEADER_SIZE + length {
            (Some(length), Ok(None))
        } else {
            (None, Ok(Some(length)))
        }
    }
}

/// The header that announces a payload of `len` bytes.
pub open spec fn frame_header(len: nat) -> Seq<u8> {
    seq![
        0x54u8,
        0x55u8,
        0x4Eu8,
        0x4Cu8,
        (len / 16777216) as u8,
        ((len / 65536) % 256) as u8,
        ((len / 256) % 256) as u8,
        (len % 256) as u8,
    ]
}

/// Codec for length-prefixed message framing.
#[derive(Debug)]
pub struct MessageCodec {
    /// Expected length of the current message (if header has been read).
    current_length: Option<usize>,
}

impl Default for MessageCodec {
    fn default() -> (r: Self)
        ensures
            r.pending_length() is None,
    {
        MessageCodec::new()
    }
}

impl MessageCodec {
    /// The payload length read from a header whose frame is not complete yet.
    pub closed spec fn pending_length(&self) -> Option<usize> {
        self.current_length
    }

    /// Create a new message codec.
    pub fn new() -> (r: Self)
        ensures
            r.pending_length() is None,
    {
        MessageCodec { current_length: None }
    }

    /// One decoding step on the buffered bytes `src` (see `decode_step`).
    /// On `Ok(Some(n))` the caller consumes the header and the `n` payload
    /// bytes that follow it.
    pub fn decode_frame(&mut self, src: &[u8]) -> (r: Result<Option<usize>, P2pError>)
        requires
            old(self).pending_length() matches Some(l) ==> l <= MAX_MESSAGE_SIZE,
        ensures
            (final(self).pending_length(), r) == decode_step(old(self).pending_length(), src@),
            final(self).pending_length() matches Some(l) ==> l <= MAX_MESSAGE_SIZE,
            r matches Ok(Some(n)) ==> n <= MAX_MESSAGE_SIZE && HEADER_SIZE + n <= src@.len(),
    {
        if self.current_length.is_none() {
            if src.len() < HEADER_SIZE {
                return Ok(None);
            }
            let magic: [u8; 4] = [src[0], src[1], src[2], src[3]];
            if !(src[0] == 0x54 && src[1] == 0x55 && src[2] == 0x4E && src[3] == 0x4C) {
                return Err(P2pError::InvalidMagic { expected: NETWORK_MAGIC, actual: magic });
            }
            let length: u64 = (src[4] as u64) * 16777216 + (src[5] as u64) * 65536 + (src[6] as u64)
                * 256 + (src[7] as u64);
            if length > MAX_MESSAGE_SIZE as u64 {
                return Err(
                    P2pError::MessageTooLarge { size: length as usize, max: MAX_MESSAGE_SIZE },
                );
            }
            self.current_length = Some(length as usize);
        }
        let length: usize = match self.current_length {
            Some(l) => l,
            None => 0,
        };
        if src.len() < HEADER_SIZE + length {
            return Ok(None);
        }
        self.current_length = None;
        Ok(Some(length))
    }

    /// The frame header for a payload of `len` bytes, or the error that the
    /// payload is too large.
    pub fn encode_header(len: usize) -> (r: Result<[u8; 8], P2pError>)
        ensures
            len > MAX_MESSAGE_SIZE ==> r == Err::<[u8; 8], P2pError>(
                P2pError::MessageTooLarge { size: len, max: MAX_MESSAGE_SIZE },
            ),
            len <= MAX_MESSAGE_SIZE ==> (r matches Ok(h) && h@ == frame_header(len as nat)),
    {
        if len > MAX_MESSAGE_SIZE {
            return Err(P2pError::MessageTooLarge { size: len, max: MAX_MESSAGE_SIZE });
        }
        let n: u32 = len as u32;
        let h: [u8; 8] = [
            0x54,
            0x55,
            0x4E,
            0x4C,
            (n / 16777216) as u8,
            ((n / 65536) % 256) as u8,
            ((n / 256) % 256) as u8,
            (n % 256) as u8,
        ];
        assert(h@ =~= frame_header(len as nat));
        Ok(h)
    }
}

/// Reading back a header gives the length it was written with.
pub proof fn lemma_header_length(len: nat)
    requires
        len <= MAX_MESSAGE_SIZE,
    ensures
        has_magic(frame_header(len)),
        announced_length(frame_header(len)) == len,
{
    let h = frame_header(len);
    let b0 = len / 16777216;
    let b1 = (len / 65536) % 256;
    let b2 = (len / 256) % 256;
    let b3 = len % 256;
    assert(b0 < 256 && b1 < 256 && b2 < 256 && b3 < 256) by (nonlinear_arith)
        requires
            len <= 1048576,
            b0 == len / 16777216,
            b1 == (len / 65536) % 256,
            b2 == (len / 256) % 256,
            b3 == len % 256,
    ;
    assert(h[4] == b0 && h[5] == b1 && h[6] == b2 && h[7] == b3);
    assert(b0 * 16777216 + b1 * 65536 + b2 * 256 + b3 == len) by (nonlinear_arith)
        requires
            len <= 1048576,
            b0 == len / 16777216,
            b1 == (len / 65536) % 256,
            b2 == (len / 256) % 256,
            b3 == len % 256,
    ;
}

/// A framed payload decodes back to its length: a fresh codec, given the
/// header written for `payload` followed by the payload and any further
/// bytes, reports one complete frame of the payload's length and is fresh
/// again afterwards.
pub proof fn lemma_frame_roundtrip(payload: Seq<u8>, rest: Seq<u8>)
    requires
        payload.len() <= MAX_MESSAGE_SIZE,
    ensures
        decode_step(None, frame_header(payload.len()) + payload + rest) == (
            None::<usize>,
            Ok::<Option<usize>, P2pError>(Some(payload.len() as usize)),
        ),
{
    let src = frame_header(payload.len()) + payload + rest;
    lemma_header_length(payload.len());
    assert(src.subrange(0, 8) =~= frame_header(payload.len()));
    assert(src[0] == frame_header(payload.len())[0]);
    assert(src[1] == frame_header(payload.len())[1]);
    assert(src[2] == frame_header(payload.len())[2]);
    assert(src[3] == frame_header(payload.len())[3]);
    assert(src[4] == frame_header(payload.len())[4]);
    assert(src[5] == frame_header(payload.len())[5]);
    assert(src[6] == frame_header(payload.len())[6]);
    assert(src[7] == frame_header(payload.len())[7]);
}

} // verus!
