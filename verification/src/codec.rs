//! The message frame codec. A frame is the message-type tag in one
//! leading byte, followed by the message payload. [`seal_message`] and
//! [`open_message`] wrap a frame in the secure channel, so that both the
//! tag and the payload are authenticated.

use crate::message_type::{MessageType, MessageTypeError};
use crate::secure_channel::{basic_decrypt, basic_encrypt, ciphertext_of, CryptoError,
    MAX_PAYLOAD_LEN};
use vstd::prelude::*;

verus! {

/// Why a byte string failed to decode as a frame: it was empty, or its
/// tag byte is outside the range 0 through 12.
#[derive(Clone, Copy, PartialEq, Eq, Structural, Debug)]
pub enum MalformedMessage {
    Truncated,
    UnknownTag,
}

/// A failure of the framed secure channel: the cipher failed, or the
/// decrypted bytes do not form a frame.
#[derive(Clone, Copy, PartialEq, Eq, Structural, Debug)]
pub enum ChannelError {
    Crypto(CryptoError),
    Malformed(MalformedMessage),
}

/// The frame for a tag and a payload: the tag's wire value in one byte,
/// then the payload.
pub open spec fn spec_encode_frame(tag: MessageType, payload: Seq<u8>) -> Seq<u8> {
    seq![tag.tag_value()] + payload
}

/// The tag and payload that a byte string decodes to, if it is a frame.
pub open spec fn spec_decode_frame(bytes: Seq<u8>) -> Result<
    (MessageType, Seq<u8>),
    MalformedMessage,
> {
    if bytes.len() == 0 {
        Err(MalformedMessage::Truncated)
    } else {
        match MessageType::tag_from(bytes[0]) {
            Some(tag) => Ok((tag, bytes.skip(1))),
            None => Err(MalformedMessage::UnknownTag),
        }
    }
}

/// Law: the frame codec loses nothing. Decoding the frame encoded from
/// any tag and payload yields that tag and payload again.
pub proof fn lemma_frame_round_trip(tag: MessageType, payload: Seq<u8>)
    ensures
        spec_decode_frame(spec_encode_frame(tag, payload)) == Ok::<_, MalformedMessage>(
            (tag, payload),
        ),
{
    let framed = spec_encode_frame(tag, payload);
    assert(framed[0] == tag.tag_value());
    crate::message_type::lemma_tag_round_trip(tag);
    assert(framed.skip(1) =~= payload);
}

/// Encodes a tag and a payload as one frame.
pub fn encode_frame(tag: MessageType, payload: &Vec<u8>) -> (r: Vec<u8>)
    ensures
        r@ == spec_encode_frame(tag, payload@),
        r@.len() == payload@.len() + 1,
{
    let mut out: Vec<u8> = Vec::new();
    out.push(tag.encode_tag());
    let mut i: usize = 0;
    while i < payload.len()
        invariant
            i <= payload.len(),
            out@ == seq![tag.tag_value()] + payload@.take(i as int),
        decreases payload.len() - i,
    {
        out.push(payload[i]);
        i = i + 1;
        proof {
            assert(payload@.take(i as int) =~= payload@.take(i - 1).push(payload@[i - 1]));
        }
    }
    proof {
        assert(payload@.take(payload@.len() as int) =~= payload@);
    }
    out
}

/// Decodes a frame into its tag and its payload. An empty byte string
/// and a tag byte above 12 are each rejected with the matching
/// [`MalformedMessage`] error, never a panic.
pub fn decode_frame(bytes: &Vec<u8>) -> (r: Result<(MessageType, Vec<u8>), MalformedMessage>)
    ensures
        match r {
            Ok((tag, payload)) => spec_decode_frame(bytes@) == Ok::<_, MalformedMessage>(
                (tag, payload@),
            ),
            Err(e) => spec_decode_frame(bytes@) == Err::<(MessageType, Seq<u8>), _>(e),
        },
{
    if bytes.len() == 0 {
        return Err(MalformedMessage::Truncated);
    }
    let tag = match MessageType::try_from(bytes[0]) {
        Ok(tag) => tag,
        Err(MessageTypeError {}) => {
            return Err(MalformedMessage::UnknownTag);
        },
    };
    let mut payload: Vec<u8> = Vec::new();
    let mut i: usize = 1;
    while i < bytes.len()
        invariant
            1 <= i <= bytes.len(),
            payload@ == bytes@.subrange(1, i as int),
        decreases bytes.len() - i,
    {
        payload.push(bytes[i]);
        i = i + 1;
        proof {
            assert(bytes@.subrange(1, i as int) =~= bytes@.subrange(1, i - 1).push(
                bytes@[i - 1],
            ));
        }
    }
    proof {
        assert(bytes@.subrange(1, bytes@.len() as int) =~= bytes@.skip(1));
    }
    Ok((tag, payload))
}

/// Encodes a tag and a payload as a frame and encrypts the frame, so
/// that tag and payload travel confidentially and tamper-evidently.
pub fn seal_message(
    key: &[u8; 32],
    nonce: &[u8; 12],
    tag: MessageType,
    payload: &Vec<u8>,
    associated_data: &[u8],
) -> (r: Result<Vec<u8>, CryptoError>)
    ensures
        r is Ok ==> r->Ok_0@ == ciphertext_of(
            key@,
            nonce@,
            spec_encode_frame(tag, payload@),
            associated_data@,
        ),
        payload@.len() + 1 <= MAX_PAYLOAD_LEN && associated_data@.len() <= MAX_PAYLOAD_LEN
            ==> r is Ok,
{
    let framed = encode_frame(tag, payload);
    basic_encrypt(key, nonce, framed.as_slice(), associated_data)
}

/// Decrypts a wire frame and decodes it into its tag and its payload.
///
/// Sealing and opening lose nothing: whenever the input is the sealed
/// frame of some tag and payload under the same key, nonce and
/// associated data, opening succeeds and returns exactly that tag and
/// that payload. Conversely, opening succeeds only on such an input:
/// whatever it returns, the bytes presented were the genuine ciphertext
/// of the frame of the returned tag and payload — altered or truncated
/// bytes are rejected, never answered with partially decrypted data.
pub fn open_message(
    key: &[u8; 32],
    nonce: &[u8; 12],
    bytes: &[u8],
    associated_data: &[u8],
) -> (r: Result<(MessageType, Vec<u8>), ChannelError>)
    ensures
        r is Ok ==> bytes@.len() == r->Ok_0.1@.len() + 17 && bytes@ == ciphertext_of(
            key@,
            nonce@,
            spec_encode_frame(r->Ok_0.0, r->Ok_0.1@),
            associated_data@,
        ),
        forall|tag: MessageType, payload: Seq<u8>|
            payload.len() + 1 <= MAX_PAYLOAD_LEN && associated_data@.len() <= MAX_PAYLOAD_LEN
                && bytes@ == ciphertext_of(
                key@,
                nonce@,
                #[trigger] spec_encode_frame(tag, payload),
                associated_data@,
            ) ==> r is Ok && r->Ok_0.0 == tag && r->Ok_0.1@ == payload,
{
    let framed = match basic_decrypt(key, nonce, bytes, associated_data) {
        Ok(framed) => framed,
        Err(e) => {
            return Err(ChannelError::Crypto(e));
        },
    };
    match decode_frame(&framed) {
        Ok((tag, payload)) => {
            proof {
                let p = choose|p: Seq<u8>|
                    p.len() + 16 == bytes@.len() && bytes@ == ciphertext_of(
                        key@,
                        nonce@,
                        p,
                        associated_data@,
                    ) && framed@ == p;
                crate::message_type::lemma_tag_values(p[0]);
                assert(spec_encode_frame(tag, payload@) =~= p);
                assert forall|tag2: MessageType, payload2: Seq<u8>|
                    payload2.len() + 1 <= MAX_PAYLOAD_LEN
                        && associated_data@.len() <= MAX_PAYLOAD_LEN && bytes@ == ciphertext_of(
                        key@,
                        nonce@,
                        spec_encode_frame(tag2, payload2),
                        associated_data@,
                    ) implies tag == tag2 && payload@ == payload2 by {
                    lemma_frame_round_trip(tag2, payload2);
                }
            }
            Ok((tag, payload))
        },
        Err(e) => {
            proof {
                assert forall|tag2: MessageType, payload2: Seq<u8>|
                    payload2.len() + 1 <= MAX_PAYLOAD_LEN
                        && associated_data@.len() <= MAX_PAYLOAD_LEN && bytes@ == ciphertext_of(
                        key@,
                        nonce@,
                        spec_encode_frame(tag2, payload2),
                        associated_data@,
                    ) implies false by {
                    lemma_frame_round_trip(tag2, payload2);
                }
            }
            Err(ChannelError::Malformed(e))
        },
    }
}

} // verus!
