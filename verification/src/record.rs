//! The persisted tweet record: its exact size and its byte layout.
//!
//! A record is byte-for-byte packed, little-endian, with no padding:
//! an 8-byte zero discriminator, the 32-byte author identifier, an
//! 8-byte signed timestamp, then the length-prefixed topic and
//! content. The account is sized to the record before creation and
//! never resized, so the single serialization pass writes every byte.

use vstd::prelude::*;
use crate::instruction::TweetInstruction;
use crate::little_endian::{u32_le, u64_le, push_u32_le, push_u64_le, push_bytes};

verus! {

/// The reserved zero discriminator that opens every record.
pub open spec fn spec_discriminator() -> Seq<u8> {
    seq![0u8, 0u8, 0u8, 0u8, 0u8, 0u8, 0u8, 0u8]
}

/// The byte size of a record holding a topic and content of the given
/// byte lengths: discriminator, author, timestamp, and two
/// length-prefixed strings.
pub open spec fn spec_space(topic_len: int, content_len: int) -> int {
    8 + 32 + 8 + 4 + topic_len + 4 + content_len
}

/// The full byte layout of a record, in storage order.
pub open spec fn spec_record(
    author: Seq<u8>,
    timestamp: i64,
    topic: Seq<u8>,
    content: Seq<u8>,
) -> Seq<u8> {
    spec_discriminator() + author + u64_le(timestamp as u64 as int) + u32_le(
        topic.len() as int,
    ) + topic + u32_le(content.len() as int) + content
}

/// The exact byte size the storage account needs for this payload.
pub fn tweet_space(t: &TweetInstruction) -> (n: u64)
    ensures
        n == spec_space(t@.0.len() as int, t@.1.len() as int),
{
    let topic_len = t.topic().len();
    let content_len = t.content().len();
    56 + (topic_len as u64) + (content_len as u64)
}

/// Serializes a record into the layout of `spec_record`; the result
/// fills a `tweet_space`-sized account exactly.
pub fn serialize_record(author: &[u8; 32], timestamp: i64, t: &TweetInstruction) -> (r: Vec<
    u8,
>)
    ensures
        r@ == spec_record(author@, timestamp, t@.0, t@.1),
        r@.len() == spec_space(t@.0.len() as int, t@.1.len() as int),
{
    let mut out: Vec<u8> = Vec::new();
    proof {
        assert(out@ =~= spec_discriminator().subrange(0, 0));
    }
    let mut i: usize = 0;
    while i < 8
        invariant
            i <= 8,
            out@ == spec_discriminator().subrange(0, i as int),
        decreases 8 - i,
    {
        out.push(0u8);
        i = i + 1;
        proof {
            assert(out@ =~= spec_discriminator().subrange(0, i as int));
        }
    }
    proof {
        assert(out@ =~= spec_discriminator() + author@.subrange(0, 0));
    }
    let mut j: usize = 0;
    while j < 32
        invariant
            j <= 32,
            out@ == spec_discriminator() + author@.subrange(0, j as int),
        decreases 32 - j,
    {
        out.push(author[j]);
        j = j + 1;
        proof {
            assert(out@ =~= spec_discriminator() + author@.subrange(0, j as int));
        }
    }
    proof {
        assert(out@ =~= spec_discriminator() + author@);
    }
    push_u64_le(&mut out, #[verifier::truncate] (timestamp as u64));
    push_u32_le(&mut out, t.topic().len() as u32);
    push_bytes(&mut out, t.topic());
    push_u32_le(&mut out, t.content().len() as u32);
    push_bytes(&mut out, t.content());
    proof {
        assert(out@ =~= spec_record(author@, timestamp, t@.0, t@.1));
    }
    out
}

} // verus!
