use solana_twitter::TweetError;
use solana_twitter::instruction::TweetInstruction;
use solana_twitter::session::{HostAction, HostEvent, Phase, SendTweet, StorageState};

fn start(topic: &[u8], content: &[u8]) -> (SendTweet, HostAction) {
    let t = TweetInstruction::new(topic.to_vec(), content.to_vec()).unwrap();
    SendTweet::new(t, [0xabu8; 32])
}

#[test]
fn full_session_populates_the_account() {
    let (s, action) = start(b"solana", b"gm");
    assert_eq!(action, HostAction::QueryRent { space: 64 });
    assert_eq!(s.phase(), Phase::AwaitRent);
    assert_eq!(s.storage_state(), StorageState::Nonexistent);

    let (s, action) = s.step(HostEvent::RentMinimum { lamports: 1234 });
    assert_eq!(action, HostAction::CreateAccount { lamports: 1234, space: 64 });
    assert_eq!(s.phase(), Phase::AwaitCreation { lamports: 1234 });
    assert_eq!(s.storage_state(), StorageState::Nonexistent);

    let (s, action) = s.step(HostEvent::CreationDone);
    assert_eq!(action, HostAction::BorrowData);
    assert_eq!(s.phase(), Phase::AwaitAccess);

    let (s, action) = s.step(HostEvent::AccessGranted);
    assert_eq!(action, HostAction::ReadClock);
    assert_eq!(s.phase(), Phase::AwaitClock);

    let timestamp: i64 = 1_700_000_000;
    let (s, action) = s.step(HostEvent::ClockRead { unix_timestamp: timestamp });
    assert_eq!(s.phase(), Phase::Complete);
    assert_eq!(s.storage_state(), StorageState::Populated);
    match action {
        HostAction::WriteRecord { bytes } => {
            assert_eq!(bytes.len(), 64);
            assert_eq!(&bytes[0..8], &[0u8; 8]);
            assert_eq!(&bytes[8..40], &[0xabu8; 32]);
            assert_eq!(&bytes[40..48], &timestamp.to_le_bytes());
            assert_eq!(&bytes[48..52], &[0x06, 0x00, 0x00, 0x00]);
            assert_eq!(&bytes[52..58], b"solana");
            assert_eq!(&bytes[58..62], &[0x02, 0x00, 0x00, 0x00]);
            assert_eq!(&bytes[62..64], b"gm");
        },
        other => panic!("expected a record write, got {:?}", other),
    }
}

#[test]
fn rejected_creation_leaves_no_account() {
    let (s, _) = start(b"solana", b"gm");
    let (s, _) = s.step(HostEvent::RentMinimum { lamports: 5_000_000 });
    // The author cannot cover the rent-exempt minimum: the host
    // rejects the creation request.
    let (s, action) = s.step(HostEvent::CreationRejected);
    assert_eq!(action, HostAction::Fail { error: TweetError::AllocationFailed });
    assert_eq!(s.phase(), Phase::Aborted { error: TweetError::AllocationFailed });
    assert_eq!(s.storage_state(), StorageState::Nonexistent);
}

#[test]
fn denied_access_aborts() {
    let (s, _) = start(b"t", b"c");
    let (s, _) = s.step(HostEvent::RentMinimum { lamports: 1 });
    let (s, _) = s.step(HostEvent::CreationDone);
    let (s, action) = s.step(HostEvent::AccessDenied);
    assert_eq!(action, HostAction::Fail { error: TweetError::AccountAccessDenied });
    assert_eq!(s.phase(), Phase::Aborted { error: TweetError::AccountAccessDenied });
    assert_eq!(s.storage_state(), StorageState::Nonexistent);
}

#[test]
fn unavailable_clock_aborts() {
    let (s, _) = start(b"t", b"c");
    let (s, _) = s.step(HostEvent::RentMinimum { lamports: 1 });
    let (s, _) = s.step(HostEvent::CreationDone);
    let (s, _) = s.step(HostEvent::AccessGranted);
    let (s, action) = s.step(HostEvent::ClockFailed);
    assert_eq!(action, HostAction::Fail { error: TweetError::ClockUnavailable });
    assert_eq!(s.phase(), Phase::Aborted { error: TweetError::ClockUnavailable });
    assert_eq!(s.storage_state(), StorageState::Nonexistent);
}
