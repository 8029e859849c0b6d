use solana_twitter::instruction::TweetInstruction;
use solana_twitter::record::{serialize_record, tweet_space};

fn payload(topic: &[u8], content: &[u8]) -> TweetInstruction {
    TweetInstruction::new(topic.to_vec(), content.to_vec()).unwrap()
}

#[test]
fn space_for_solana_gm_is_64() {
    let t = payload(b"solana", b"gm");
    assert_eq!(tweet_space(&t), 8 + 32 + 8 + 4 + 6 + 4 + 2);
    assert_eq!(tweet_space(&t), 64);
}

#[test]
fn space_counts_both_strings() {
    let t = payload(&[b'a'; 50], &[b'x'; 280]);
    assert_eq!(tweet_space(&t), 56 + 50 + 280);
}

#[test]
fn record_layout_for_solana_gm() {
    let t = payload(b"solana", b"gm");
    let author = [0xabu8; 32];
    let timestamp: i64 = 1_700_000_000;
    let bytes = serialize_record(&author, timestamp, &t);
    assert_eq!(bytes.len(), 64);
    // Discriminator: 8 zero bytes.
    assert_eq!(&bytes[0..8], &[0u8; 8]);
    // Author identity.
    assert_eq!(&bytes[8..40], &author);
    // Timestamp, little-endian signed 64-bit.
    assert_eq!(&bytes[40..48], &timestamp.to_le_bytes());
    // Length-prefixed topic and content.
    let mut tail = Vec::new();
    tail.extend_from_slice(&[0x06, 0x00, 0x00, 0x00]);
    tail.extend_from_slice(b"solana");
    tail.extend_from_slice(&[0x02, 0x00, 0x00, 0x00]);
    tail.extend_from_slice(b"gm");
    assert_eq!(&bytes[48..64], tail.as_slice());
}

#[test]
fn record_keeps_negative_timestamp_bytes() {
    let t = payload(b"t", b"c");
    let author = [1u8; 32];
    let timestamp: i64 = -2;
    let bytes = serialize_record(&author, timestamp, &t);
    assert_eq!(&bytes[40..48], &timestamp.to_le_bytes());
}

#[test]
fn record_of_empty_strings() {
    let t = payload(b"", b"");
    let author = [9u8; 32];
    let bytes = serialize_record(&author, 0, &t);
    assert_eq!(bytes.len(), 56);
    assert_eq!(&bytes[48..52], &[0u8; 4]);
    assert_eq!(&bytes[52..56], &[0u8; 4]);
}
