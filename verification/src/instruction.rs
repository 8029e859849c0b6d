//! The instruction decoder and its encoder counterpart.
//!
//! An instruction buffer is little-endian throughout: a 16-bit opcode,
//! then, for the send-tweet operation, a 32-bit topic length, a 32-bit
//! content length, and the topic and content bytes themselves. The
//! decoder validates every size constraint and the UTF-8 encoding of
//! both strings before it hands out a well-formed payload.

use vstd::prelude::*;
use crate::errors::TweetError;
use crate::little_endian::{
    le16_of, le32_of, u16_le, u32_le, push_u16_le, push_u32_le, push_bytes,
    lemma_u16_le_round, lemma_u32_le_round,
};
use vstd::slice::{slice_index_get, slice_subrange, slice_to_vec};

verus! {

/// The only opcode this core recognizes: record a new tweet.
pub const SEND_TWEET_OPCODE: u16 = 0;

/// Topics are capped at this many bytes.
pub const MAX_TOPIC_BYTES: usize = 50;

/// Contents are capped at this many bytes.
pub const MAX_CONTENT_BYTES: usize = 280;

/// Whether a byte sequence is valid UTF-8 text.
pub uninterp spec fn is_utf8(b: Seq<u8>) -> bool;

/// Relies on core::str::from_utf8: it returns `Ok` exactly when the
/// bytes are valid UTF-8, a property of the bytes alone.
#[verifier::external_body]
fn utf8_check(b: &[u8]) -> (r: bool)
    ensures
        r == is_utf8(b@),
{
    core::str::from_utf8(b).is_ok()
}

/// A validated send-tweet payload: the topic and content byte strings,
/// both valid UTF-8 and within their byte-length limits.
#[derive(Debug)]
pub struct TweetInstruction {
    topic: Vec<u8>,
    content: Vec<u8>,
}

/// What validation makes of a candidate topic/content pair: the pair
/// itself when both strings are acceptable, otherwise the first error
/// in checking order (encoding before length limits).
pub open spec fn spec_validate(topic: Seq<u8>, content: Seq<u8>) -> Result<
    (Seq<u8>, Seq<u8>),
    TweetError,
> {
    if !is_utf8(topic) || !is_utf8(content) {
        Err(TweetError::InvalidEncoding)
    } else if topic.len() > MAX_TOPIC_BYTES || content.len() > MAX_CONTENT_BYTES {
        Err(TweetError::ContentTooLong)
    } else {
        Ok((topic, content))
    }
}

/// What decoding makes of a raw instruction buffer, checked in the
/// order the buffer is read: opcode window, opcode value, length
/// prefixes, declared payload extent, then string validation.
pub open spec fn spec_decode(data: Seq<u8>) -> Result<(Seq<u8>, Seq<u8>), TweetError> {
    if data.len() < 2 {
        Err(TweetError::MalformedInstruction)
    } else if le16_of(data.subrange(0, 2)) != SEND_TWEET_OPCODE {
        Err(TweetError::UnsupportedOperation)
    } else if data.len() < 10 {
        Err(TweetError::MalformedInstruction)
    } else {
        let topic_len = le32_of(data.subrange(2, 6));
        let content_len = le32_of(data.subrange(6, 10));
        if data.len() < 10 + topic_len + content_len {
            Err(TweetError::MalformedInstruction)
        } else {
            spec_validate(
                data.subrange(10, 10 + topic_len),
                data.subrange(10 + topic_len, 10 + topic_len + content_len),
            )
        }
    }
}

/// The instruction buffer that carries a topic/content pair: the
/// send-tweet opcode, both length prefixes, then the bytes.
pub open spec fn spec_encode(topic: Seq<u8>, content: Seq<u8>) -> Seq<u8> {
    u16_le(SEND_TWEET_OPCODE as int) + u32_le(topic.len() as int) + u32_le(
        content.len() as int,
    ) + topic + content
}

impl TweetInstruction {
    #[verifier::type_invariant]
    spec fn wf(self) -> bool {
        &&& self.topic@.len() <= MAX_TOPIC_BYTES
        &&& self.content@.len() <= MAX_CONTENT_BYTES
        &&& is_utf8(self.topic@)
        &&& is_utf8(self.content@)
    }

    /// Validates a topic/content pair, in the checking order of the
    /// decoder: encoding first, then the byte-length limits.
    pub fn new(topic: Vec<u8>, content: Vec<u8>) -> (r: Result<TweetInstruction, TweetError>)
        ensures
            (match spec_validate(topic@, content@) {
                Ok(p) => r matches Ok(t) && t@ == p,
                Err(e) => r matches Err(a) && a == e,
            }),
    {
        if !utf8_check(topic.as_slice()) || !utf8_check(content.as_slice()) {
            return Err(TweetError::InvalidEncoding);
        }
        if topic.len() > MAX_TOPIC_BYTES || content.len() > MAX_CONTENT_BYTES {
            return Err(TweetError::ContentTooLong);
        }
        Ok(TweetInstruction { topic, content })
    }

    /// The topic bytes: within the limit and valid UTF-8, as every
    /// payload that exists is.
    pub fn topic(&self) -> (r: &Vec<u8>)
        ensures
            r@ == self@.0,
            r@.len() <= MAX_TOPIC_BYTES,
            is_utf8(r@),
    {
        proof {
            use_type_invariant(self);
        }
        &self.topic
    }

    /// The content bytes: within the limit and valid UTF-8, as every
    /// payload that exists is.
    pub fn content(&self) -> (r: &Vec<u8>)
        ensures
            r@ == self@.1,
            r@.len() <= MAX_CONTENT_BYTES,
            is_utf8(r@),
    {
        proof {
            use_type_invariant(self);
        }
        &self.content
    }
}

impl View for TweetInstruction {
    type V = (Seq<u8>, Seq<u8>);

    closed spec fn view(&self) -> (Seq<u8>, Seq<u8>) {
        (self.topic@, self.content@)
    }
}

/// Decodes and validates a raw instruction buffer, exactly as
/// `spec_decode` reads it.
pub fn process_instruction(data: &[u8]) -> (r: Result<TweetInstruction, TweetError>)
    ensures
        (match spec_decode(data@) {
            Ok(p) => r matches Ok(t) && t@ == p,
            Err(e) => r matches Err(a) && a == e,
        }),
{
    if data.len() < 2 {
        return Err(TweetError::MalformedInstruction);
    }
    let b0 = *slice_index_get(data, 0);
    let b1 = *slice_index_get(data, 1);
    let opcode: u16 = (b0 as u16) + (b1 as u16) * 0x100;
    assert(opcode == le16_of(data@.subrange(0, 2)));
    if opcode != SEND_TWEET_OPCODE {
        return Err(TweetError::UnsupportedOperation);
    }
    if data.len() < 10 {
        return Err(TweetError::MalformedInstruction);
    }
    let t0 = *slice_index_get(data, 2);
    let t1 = *slice_index_get(data, 3);
    let t2 = *slice_index_get(data, 4);
    let t3 = *slice_index_get(data, 5);
    let topic_len: u32 = (t0 as u32) + (t1 as u32) * 0x100 + (t2 as u32) * 0x10000 + (t3
        as u32) * 0x1000000;
    assert(topic_len == le32_of(data@.subrange(2, 6)));
    let c0 = *slice_index_get(data, 6);
    let c1 = *slice_index_get(data, 7);
    let c2 = *slice_index_get(data, 8);
    let c3 = *slice_index_get(data, 9);
    let content_len: u32 = (c0 as u32) + (c1 as u32) * 0x100 + (c2 as u32) * 0x10000 + (c3
        as u32) * 0x1000000;
    assert(content_len == le32_of(data@.subrange(6, 10)));
    if (data.len() as u64) < 10 + (topic_len as u64) + (content_len as u64) {
        return Err(TweetError::MalformedInstruction);
    }
    let topic_start: usize = 10;
    let topic_end: usize = topic_start + (topic_len as usize);
    let content_end: usize = topic_end + (content_len as usize);
    let topic = slice_to_vec(slice_subrange(data, topic_start, topic_end));
    let content = slice_to_vec(slice_subrange(data, topic_end, content_end));
    if !utf8_check(topic.as_slice()) || !utf8_check(content.as_slice()) {
        return Err(TweetError::InvalidEncoding);
    }
    if topic.len() > MAX_TOPIC_BYTES || content.len() > MAX_CONTENT_BYTES {
        return Err(TweetError::ContentTooLong);
    }
    Ok(TweetInstruction { topic, content })
}

/// Encodes a validated payload into the instruction buffer that the
/// decoder accepts and maps back to the very same payload.
pub fn encode_instruction(t: &TweetInstruction) -> (r: Vec<u8>)
    ensures
        r@ == spec_encode(t@.0, t@.1),
        spec_decode(r@) == Ok::<(Seq<u8>, Seq<u8>), TweetError>((t@.0, t@.1)),
{
    proof {
        use_type_invariant(t);
    }
    let mut out: Vec<u8> = Vec::new();
    push_u16_le(&mut out, SEND_TWEET_OPCODE);
    push_u32_le(&mut out, t.topic.len() as u32);
    push_u32_le(&mut out, t.content.len() as u32);
    push_bytes(&mut out, &t.topic);
    push_bytes(&mut out, &t.content);
    proof {
        assert(out@ =~= spec_encode(t@.0, t@.1));
        lemma_encode_decode(t@.0, t@.1);
    }
    out
}

/// The fixed windows of an encoded buffer read back as what was
/// written into them.
proof fn lemma_encode_parts(topic: Seq<u8>, content: Seq<u8>)
    requires
        topic.len() < 0x1_0000_0000,
        content.len() < 0x1_0000_0000,
    ensures
        spec_encode(topic, content).len() == 10 + topic.len() + content.len(),
        le16_of(spec_encode(topic, content).subrange(0, 2)) == SEND_TWEET_OPCODE,
        le32_of(spec_encode(topic, content).subrange(2, 6)) == topic.len(),
        le32_of(spec_encode(topic, content).subrange(6, 10)) == content.len(),
        spec_encode(topic, content).subrange(10, 10 + topic.len() as int) == topic,
        spec_encode(topic, content).subrange(
            10 + topic.len() as int,
            10 + topic.len() + content.len() as int,
        ) == content,
{
    let e = spec_encode(topic, content);
    lemma_u16_le_round(SEND_TWEET_OPCODE as int);
    lemma_u32_le_round(topic.len() as int);
    lemma_u32_le_round(content.len() as int);
    assert(e.subrange(0, 2) =~= u16_le(SEND_TWEET_OPCODE as int));
    assert(e.subrange(2, 6) =~= u32_le(topic.len() as int));
    assert(e.subrange(6, 10) =~= u32_le(content.len() as int));
    assert(e.subrange(10, 10 + topic.len() as int) =~= topic);
    assert(e.subrange(10 + topic.len() as int, 10 + topic.len() + content.len() as int) =~= content);
}

/// Round trip: encoding a topic/content pair and decoding the buffer
/// gives back exactly that pair whenever both strings are valid UTF-8,
/// and fails with the encoding error whenever one is not.
pub proof fn lemma_encode_decode(topic: Seq<u8>, content: Seq<u8>)
    requires
        topic.len() <= MAX_TOPIC_BYTES,
        content.len() <= MAX_CONTENT_BYTES,
    ensures
        is_utf8(topic) && is_utf8(content) ==> spec_decode(spec_encode(topic, content))
            == Ok::<(Seq<u8>, Seq<u8>), TweetError>((topic, content)),
        !(is_utf8(topic) && is_utf8(content)) ==> spec_decode(spec_encode(topic, content))
            == Err::<(Seq<u8>, Seq<u8>), TweetError>(TweetError::InvalidEncoding),
{
    lemma_encode_parts(topic, content);
}

/// Every buffer shorter than the 2-byte opcode window is rejected as
/// malformed.
pub proof fn lemma_short_buffer_rejected(data: Seq<u8>)
    requires
        data.len() < 2,
    ensures
        spec_decode(data) == Err::<(Seq<u8>, Seq<u8>), TweetError>(
            TweetError::MalformedInstruction,
        ),
{
}

/// Every buffer whose opcode is not the send-tweet opcode is rejected
/// as an unsupported operation.
pub proof fn lemma_unknown_opcode_rejected(data: Seq<u8>)
    requires
        data.len() >= 2,
        le16_of(data.subrange(0, 2)) != SEND_TWEET_OPCODE,
    ensures
        spec_decode(data) == Err::<(Seq<u8>, Seq<u8>), TweetError>(
            TweetError::UnsupportedOperation,
        ),
{
}

/// Every buffer whose declared topic and content lengths reach past
/// its end is rejected as malformed.
pub proof fn lemma_truncated_payload_rejected(data: Seq<u8>)
    requires
        data.len() >= 10,
        le16_of(data.subrange(0, 2)) == SEND_TWEET_OPCODE,
        data.len() < 10 + le32_of(data.subrange(2, 6)) + le32_of(data.subrange(6, 10)),
    ensures
        spec_decode(data) == Err::<(Seq<u8>, Seq<u8>), TweetError>(
            TweetError::MalformedInstruction,
        ),
{
}

/// The topic limit is tight: one byte over it turns an otherwise valid
/// buffer into a length error, while a topic at the limit is accepted.
pub proof fn lemma_topic_limit(topic: Seq<u8>, content: Seq<u8>)
    requires
        topic.len() <= MAX_TOPIC_BYTES + 1,
        content.len() <= MAX_CONTENT_BYTES,
    ensures
        is_utf8(topic) && is_utf8(content) && topic.len() == MAX_TOPIC_BYTES + 1
            ==> spec_decode(spec_encode(topic, content)) == Err::<
            (Seq<u8>, Seq<u8>),
            TweetError,
        >(TweetError::ContentTooLong),
        is_utf8(topic) && is_utf8(content) && topic.len() <= MAX_TOPIC_BYTES
            ==> spec_decode(spec_encode(topic, content)) == Ok::<
            (Seq<u8>, Seq<u8>),
            TweetError,
        >((topic, content)),
{
    lemma_encode_parts(topic, content);
}

} // verus!
