//! The advertising frame: `[6-byte identifier][1-byte length L][L-byte payload][64-byte signature]`.

use vstd::prelude::*;
use crate::hexcode::{decode_hex, encode_hex, hex_bytes, hex_text, is_hex_text};

verus! {

/// Bytes of the beacon identifier at the head of a frame.
pub const IDENTIFIER_LEN: usize = 6;

/// Bytes of the detached signature at the tail of a frame.
pub const SIGNATURE_LEN: usize = 64;

/// Why an advertising frame was refused.
#[derive(Debug, Clone, Copy, PartialEq, Eq, Structural)]
pub enum DecodeError {
    /// The text is not hex: odd length or a non-hex character.
    MalformedEncoding,
    /// Too few bytes to hold the identifier and the length byte.
    TooShort,
    /// The byte count is not exactly `6 + 1 + L + 64`.
    LengthMismatch,
}

/// The parts of a well-formed frame, as mathematical sequences.
pub ghost struct AdvertisingView {
    pub identifier: Seq<u8>,
    pub signed_data: Seq<u8>,
    pub signature: Seq<u8>,
    pub payload: Seq<u8>,
}

/// The parts of a well-formed frame.
#[derive(Debug, Clone)]
pub struct DecodedAdvertising {
    pub identifier: Vec<u8>,
    pub signed_data: Vec<u8>,
    pub signature: Vec<u8>,
    pub payload: Vec<u8>,
}

impl View for DecodedAdvertising {
    type V = AdvertisingView;

    open spec fn view(&self) -> AdvertisingView {
        AdvertisingView {
            identifier: self.identifier@,
            signed_data: self.signed_data@,
            signature: self.signature@,
            payload: self.payload@,
        }
    }
}

/// The declared payload length: byte 6.
pub open spec fn declared_len(b: Seq<u8>) -> int {
    b[6] as int
}

/// The one total length that a frame with declared length `b[6]` may have.
pub open spec fn expected_frame_len(b: Seq<u8>) -> int {
    6 + 1 + declared_len(b) + 64
}

/// What decoding a byte frame gives.
pub open spec fn frame_outcome(b: Seq<u8>) -> Result<AdvertisingView, DecodeError> {
    if b.len() < 9 {
        Err(DecodeError::TooShort)
    } else if b.len() != expected_frame_len(b) {
        Err(DecodeError::LengthMismatch)
    } else {
        let body_end = 7 + declared_len(b);
        Ok(AdvertisingView {
            identifier: b.subrange(0, 6),
            signed_data: b.subrange(0, body_end),
            signature: b.subrange(body_end, b.len() as int),
            payload: b.subrange(7, body_end),
        })
    }
}

/// What decoding hex advertising text gives.
pub open spec fn advertising_outcome(s: Seq<char>) -> Result<AdvertisingView, DecodeError> {
    if !is_hex_text(s) {
        Err(DecodeError::MalformedEncoding)
    } else {
        frame_outcome(hex_bytes(s))
    }
}

fn copy_range(b: &[u8], start: usize, end: usize) -> (r: Vec<u8>)
    requires
        start <= end <= b@.len(),
    ensures
        r@ == b@.subrange(start as int, end as int),
{
    let mut r: Vec<u8> = Vec::with_capacity(end - start);
    let mut i: usize = start;
    while i < end
        invariant
            start <= i <= end <= b@.len(),
            r@ == b@.subrange(start as int, i as int),
        decreases end - i,
    {
        r.push(b[i]);
        i = i + 1;
        assert(r@ =~= b@.subrange(start as int, i as int));
    }
    r
}

/// Splits a byte frame into identifier, payload, signed data and signature.
/// The total length must equal `6 + 1 + L + 64` exactly.
pub fn decode_frame(b: &[u8]) -> (r: Result<DecodedAdvertising, DecodeError>)
    ensures
        match r {
            Ok(d) => frame_outcome(b@) == Ok::<AdvertisingView, DecodeError>(d@),
            Err(e) => frame_outcome(b@) == Err::<AdvertisingView, DecodeError>(e),
        },
{
    if b.len() < 9 {
        return Err(DecodeError::TooShort);
    }
    let length: usize = b[6] as usize;
    if b.len() != IDENTIFIER_LEN + 1 + length + SIGNATURE_LEN {
        return Err(DecodeError::LengthMismatch);
    }
    let body_end: usize = IDENTIFIER_LEN + 1 + length;
    let d = DecodedAdvertising {
        identifier: copy_range(b, 0, IDENTIFIER_LEN),
        signed_data: copy_range(b, 0, body_end),
        signature: copy_range(b, body_end, b.len()),
        payload: copy_range(b, IDENTIFIER_LEN + 1, body_end),
    };
    Ok(d)
}

/// Decodes hex advertising text into the parts of its frame.
pub fn decode_advertising(hex: &str) -> (r: Result<DecodedAdvertising, DecodeError>)
    ensures
        match r {
            Ok(d) => advertising_outcome(hex@) == Ok::<AdvertisingView, DecodeError>(d@),
            Err(e) => advertising_outcome(hex@) == Err::<AdvertisingView, DecodeError>(e),
        },
{
    match decode_hex(hex) {
        Ok(bytes) => decode_frame(bytes.as_slice()),
        Err(_) => Err(DecodeError::MalformedEncoding),
    }
}

impl DecodedAdvertising {
    /// The identifier as lowercase hex, the key under which beacons are registered.
    pub fn identifier_hex(&self) -> (r: String)
        ensures
            r@ == hex_text(self.identifier@),
    {
        encode_hex(self.identifier.as_slice())
    }
}

/// A decoded frame always has the length it declares: six identifier bytes,
/// the length byte, the payload and a 64-byte signature make up the whole
/// input, and any input of another length is refused.
pub proof fn lemma_decoded_length_agrees(s: Seq<char>)
    ensures
        advertising_outcome(s) is Ok ==> {
            let a = advertising_outcome(s)->Ok_0;
            &&& is_hex_text(s)
            &&& hex_bytes(s).len() == 6 + 1 + a.payload.len() + 64
            &&& a.identifier.len() == 6
            &&& a.signature.len() == 64
        },
        is_hex_text(s) && hex_bytes(s).len() > 6 && hex_bytes(s).len() != expected_frame_len(
            hex_bytes(s),
        ) ==> advertising_outcome(s) is Err,
{
}

/// The payload of a decoded frame is exactly as long as its length byte says.
pub proof fn lemma_payload_len_is_declared(s: Seq<char>)
    requires
        advertising_outcome(s) is Ok,
    ensures
        advertising_outcome(s)->Ok_0.payload.len() == hex_bytes(s)[6],
{
}

} // verus!
